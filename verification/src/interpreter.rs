//! Recovers facts from the deployer's free-text output: the numeric network
//! identifier and the addresses of the contracts it reports.

use crate::text::{chars_of, find_char, find_from, find_in, index_of_char};
use vstd::prelude::*;

verus! {

/// The text that precedes the network identifier in the deployer's output:
/// the broadcast directory of the script named `script`.
pub open spec fn broadcast_marker(script: Seq<char>) -> Seq<char> {
    "broadcast/"@ + script + "/"@
}

/// The network identifier in `output`: what follows the first broadcast
/// marker, up to the next `/` or the next marker, whichever comes first.
/// Empty when `output` holds no marker.
pub open spec fn network_id(output: Seq<char>, script: Seq<char>) -> Seq<char> {
    let marker = broadcast_marker(script);
    match find_from(output, marker, 0) {
        None => Seq::empty(),
        Some(at) => {
            let start = at + marker.len();
            let slash = index_of_char(output, '/', start);
            let end = match find_from(output, marker, start) {
                Some(next) if next < slash => next,
                _ => slash,
            };
            output.subrange(start, end)
        },
    }
}

/// The network identifier that the deployer's output names for the script
/// `script_name`, or the empty text when it names none.
pub fn extract_network_id(output: &str, script_name: &str) -> (id: String)
    ensures
        id@ == network_id(output@, script_name@),
{
    let mut marker_text = String::from_str("broadcast/");
    marker_text.append(script_name);
    marker_text.append("/");
    let marker = chars_of(marker_text.as_str());
    let hay = chars_of(output);
    match find_in(&hay, &marker, 0) {
        None => String::new(),
        Some(at) => {
            let start: usize = at + marker.len();
            let slash = find_char(&hay, '/', start);
            proof {
                crate::text::lemma_index_of_char(hay@, '/', start as int);
            }
            let end: usize = match find_in(&hay, &marker, start) {
                Some(next) => if next < slash {
                    next
                } else {
                    slash
                },
                None => slash,
            };
            String::from_str(output.substring_char(start, end))
        },
    }
}

/// The text that precedes the address of the contract labelled `label`.
pub open spec fn address_marker(label: Seq<char>) -> Seq<char> {
    label + ": contract "@
}

/// Blank characters end a token.
pub open spec fn is_blank(c: char) -> bool {
    c == ' ' || c == '\n' || c == '\t' || c == '\r'
}

/// The least index at or after `from` that holds a blank, or the length of
/// `s` when none follows.
pub open spec fn token_end(s: Seq<char>, from: int) -> int
    decreases s.len() - from,
{
    if from < 0 || from >= s.len() {
        s.len() as int
    } else if is_blank(s[from]) {
        from
    } else {
        token_end(s, from + 1)
    }
}

/// The address that `output` reports for `label`: the token right after the
/// first address marker of that label. `None` when `output` holds no such
/// marker, or nothing but a blank or the end follows it.
pub open spec fn labelled_address(output: Seq<char>, label: Seq<char>) -> Option<Seq<char>> {
    let marker = address_marker(label);
    match find_from(output, marker, 0) {
        None => None,
        Some(at) => {
            let start = at + marker.len();
            let end = token_end(output, start);
            if end <= start {
                None
            } else {
                Some(output.subrange(start, end))
            }
        },
    }
}

/// For each of `labels` that `output` reports an address for, the label with
/// that address, in the order of `labels`.
pub open spec fn found_addresses(output: Seq<char>, labels: Seq<Seq<char>>) -> Seq<
    (Seq<char>, Seq<char>),
>
    decreases labels.len(),
{
    if labels.len() == 0 {
        Seq::empty()
    } else {
        let earlier = found_addresses(output, labels.drop_last());
        match labelled_address(output, labels.last()) {
            Some(address) => earlier.push((labels.last(), address)),
            None => earlier,
        }
    }
}

/// The address of one deployed contract, under the label that the deployer
/// printed it with.
#[derive(Clone, Debug, PartialEq, Eq)]
pub struct ContractAddress {
    pub label: String,
    pub address: String,
}

impl View for ContractAddress {
    type V = (Seq<char>, Seq<char>);

    open spec fn view(&self) -> (Seq<char>, Seq<char>) {
        (self.label@, self.address@)
    }
}

impl DeepView for ContractAddress {
    type V = (Seq<char>, Seq<char>);

    open spec fn deep_view(&self) -> (Seq<char>, Seq<char>) {
        self@
    }
}

/// What one run of the deployer told: the network identifier, empty when it
/// named none, and the addresses it reported.
#[derive(Clone, Debug, PartialEq, Eq)]
pub struct ExtractedFacts {
    pub network_id: String,
    pub addresses: Vec<ContractAddress>,
}

/// The first index at or after `from` that holds a blank, or the length.
fn find_blank(hay: &Vec<char>, from: usize) -> (at: usize)
    ensures
        at as int == token_end(hay@, from as int),
        from <= hay.len() ==> from <= at <= hay.len(),
{
    let mut i: usize = from;
    while i < hay.len()
        invariant
            from <= i,
            from <= hay.len() ==> i <= hay.len(),
            token_end(hay@, from as int) == token_end(hay@, i as int),
        decreases hay.len() - i,
    {
        let c = hay[i];
        if c == ' ' || c == '\n' || c == '\t' || c == '\r' {
            return i;
        }
        i += 1;
    }
    hay.len()
}

/// The address that the deployer's output reports for the contract labelled
/// `label`, if it reports one.
pub fn extract_address(output: &str, label: &str) -> (address: Option<String>)
    ensures
        address.deep_view() == labelled_address(output@, label@),
{
    let mut marker_text = String::from_str(label);
    marker_text.append(": contract ");
    let marker = chars_of(marker_text.as_str());
    let hay = chars_of(output);
    match find_in(&hay, &marker, 0) {
        None => None,
        Some(at) => {
            let start: usize = at + marker.len();
            let end = find_blank(&hay, start);
            if end <= start {
                None
            } else {
                Some(String::from_str(output.substring_char(start, end)))
            }
        },
    }
}

/// The facts in the deployer's output for the script `script_name`: the
/// network identifier, and the address of each contract of `labels` that the
/// output reports.
pub fn extract(output: &str, script_name: &str, labels: &Vec<String>) -> (facts: ExtractedFacts)
    ensures
        facts.network_id@ == network_id(output@, script_name@),
        facts.addresses.deep_view() == found_addresses(output@, labels.deep_view()),
{
    let mut addresses: Vec<ContractAddress> = Vec::new();
    let mut i: usize = 0;
    while i < labels.len()
        invariant
            i <= labels.len(),
            addresses.deep_view() == found_addresses(output@, labels.deep_view().take(i as int)),
        decreases labels.len() - i,
    {
        let ghost before = addresses.deep_view();
        let found = extract_address(output, labels[i].as_str());
        proof {
            let upto = labels.deep_view().take(i + 1);
            assert(upto.drop_last() =~= labels.deep_view().take(i as int));
            assert(upto.last() == labels[i as int]@);
        }
        match found {
            Some(address) => {
                let entry = ContractAddress { label: labels[i].clone(), address };
                addresses.push(entry);
                assert(addresses.deep_view() =~= before.push((labels[i as int]@, address@)));
            },
            None => {},
        }
        i += 1;
    }
    assert(labels.deep_view().take(labels.len() as int) =~= labels.deep_view());
    ExtractedFacts { network_id: extract_network_id(output, script_name), addresses }
}

} // verus!
