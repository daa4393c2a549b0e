//! The chain registry: the networks that the configuration file defines.
//!
//! Chains are the keys of two sections of the configuration, the RPC
//! endpoints and the block explorers. A chain that both sections name counts
//! once, and the local development network never counts.

use crate::text::same_text;
use vstd::prelude::*;

verus! {

/// A top-level entry of a configuration document as a specification sees it:
/// its name, and the keys it holds when it is a table.
pub type EntryView = (Seq<char>, Option<Seq<Seq<char>>>);

/// A top-level entry of a configuration document: its name and, when the
/// entry is a table, the keys of that table.
#[derive(Clone, Debug, PartialEq, Eq)]
pub struct ConfigEntry {
    pub name: String,
    pub keys: Option<Vec<String>>,
}

impl View for ConfigEntry {
    type V = EntryView;

    open spec fn view(&self) -> EntryView {
        (self.name@, self.keys.deep_view())
    }
}

impl DeepView for ConfigEntry {
    type V = EntryView;

    open spec fn deep_view(&self) -> EntryView {
        self@
    }
}

/// The section that defines the RPC endpoints.
pub open spec fn rpc_section() -> Seq<char> {
    "rpc_endpoints"@
}

/// The section that defines the block explorers.
pub open spec fn explorer_section() -> Seq<char> {
    "etherscan"@
}

/// The key of the local development network, which is no chain to deploy to.
pub open spec fn local_chain() -> Seq<char> {
    "localhost"@
}

/// The keys of the first entry at or after `from` that is named `section`;
/// none when there is no such entry or it is no table.
pub open spec fn section_keys_from(entries: Seq<EntryView>, section: Seq<char>, from: int) -> Seq<
    Seq<char>,
>
    decreases entries.len() - from,
{
    if from < 0 || from >= entries.len() {
        Seq::empty()
    } else if entries[from].0 == section {
        match entries[from].1 {
            Some(keys) => keys,
            None => Seq::empty(),
        }
    } else {
        section_keys_from(entries, section, from + 1)
    }
}

/// The keys of the section named `section`.
pub open spec fn section_keys(entries: Seq<EntryView>, section: Seq<char>) -> Seq<Seq<char>> {
    section_keys_from(entries, section, 0)
}

/// `known`, followed by each of `keys` that is a chain and was not met before,
/// in the order of `keys`.
pub open spec fn merge_chains(known: Seq<Seq<char>>, keys: Seq<Seq<char>>) -> Seq<Seq<char>>
    decreases keys.len(),
{
    if keys.len() == 0 {
        known
    } else {
        let earlier = merge_chains(known, keys.drop_last());
        if keys.last() == local_chain() || earlier.contains(keys.last()) {
            earlier
        } else {
            earlier.push(keys.last())
        }
    }
}

/// The chains among `keys`: each key but the local one, once, at the place
/// where it first stands.
pub open spec fn unique_chains(keys: Seq<Seq<char>>) -> Seq<Seq<char>> {
    merge_chains(Seq::empty(), keys)
}

/// The chains that a configuration with these top-level entries defines.
pub open spec fn registry(entries: Seq<EntryView>) -> Seq<Seq<char>> {
    unique_chains(
        section_keys(entries, rpc_section()) + section_keys(entries, explorer_section()),
    )
}

/// What `toml::from_str` makes of a configuration text, read as a
/// `toml::Value`: `None` when the text is no TOML document, else the entries of
/// the document's top-level table in the order in which that table yields
/// them.
pub uninterp spec fn toml_entries(content: Seq<char>) -> Option<Seq<EntryView>>;

/// Parses a configuration text with `toml::from_str` into a `toml::Value` and
/// hands out the entries of its top-level table, each with its name and, where
/// `Value::as_table` finds a table, with the keys of that table. The result is
/// the text's `toml_entries`: the outcome of the parse is not modelled here.
#[verifier::external_body]
fn parse_entries(content: &str) -> (entries: Option<Vec<ConfigEntry>>)
    ensures
        entries.deep_view() == toml_entries(content@),
{
    match toml::from_str::<toml::Value>(content) {
        Ok(toml::Value::Table(table)) => Some(
            table.iter().map(
                |(name, value)|
                    ConfigEntry {
                        name: name.clone(),
                        keys: value.as_table().map(|inner| inner.keys().cloned().collect()),
                    },
            ).collect(),
        ),
        _ => None,
    }
}

/// Merging keys in two parts is merging their concatenation.
pub proof fn lemma_merge_concat(known: Seq<Seq<char>>, first: Seq<Seq<char>>, second: Seq<Seq<char>>)
    ensures
        merge_chains(known, first + second) == merge_chains(merge_chains(known, first), second),
    decreases second.len(),
{
    if second.len() == 0 {
        assert(first + second =~= first);
    } else {
        lemma_merge_concat(known, first, second.drop_last());
        assert((first + second).drop_last() =~= first + second.drop_last());
        assert((first + second).last() == second.last());
    }
}

/// Merging keeps what was known, adds exactly the chains among the keys, and
/// adds none twice.
pub proof fn lemma_merge_chains(known: Seq<Seq<char>>, keys: Seq<Seq<char>>)
    ensures
        forall|c: Seq<char>| #[trigger]
            merge_chains(known, keys).contains(c) <==> known.contains(c) || (keys.contains(c) && c
                != local_chain()),
        known.no_duplicates() ==> merge_chains(known, keys).no_duplicates(),
        merge_chains(known, keys).len() >= known.len(),
        merge_chains(known, keys).subrange(0, known.len() as int) == known,
    decreases keys.len(),
{
    let merged = merge_chains(known, keys);
    if keys.len() == 0 {
        assert(merged.subrange(0, known.len() as int) =~= known);
    } else {
        let earlier = merge_chains(known, keys.drop_last());
        let last = keys.last();
        lemma_merge_chains(known, keys.drop_last());
        assert(merged.subrange(0, known.len() as int) =~= earlier.subrange(0, known.len() as int));
        assert forall|c: Seq<char>| #[trigger]
            merged.contains(c) <==> known.contains(c) || (keys.contains(c) && c
                != local_chain()) by {
            if keys.contains(c) {
                let i = choose|i: int| 0 <= i < keys.len() && keys[i] == c;
                if i < keys.len() - 1 {
                    assert(keys.drop_last()[i] == c);
                    assert(keys.drop_last().contains(c));
                }
            }
            if keys.drop_last().contains(c) {
                let i = choose|i: int| 0 <= i < keys.drop_last().len() && keys.drop_last()[i] == c;
                assert(keys[i] == c);
            }
            assert(keys[keys.len() - 1] == last);
            if merged != earlier {
                assert(merged == earlier.push(last));
                assert(merged[merged.len() - 1] == last);
                if merged.contains(c) {
                    let i = choose|i: int| 0 <= i < merged.len() && merged[i] == c;
                    if i < earlier.len() {
                        assert(earlier[i] == c);
                    }
                }
                if earlier.contains(c) {
                    let i = choose|i: int| 0 <= i < earlier.len() && earlier[i] == c;
                    assert(merged[i] == c);
                }
            }
        }
    }
}

/// The registry names every chain once, never the local network, and holds
/// exactly the other keys of the two sections.
pub proof fn lemma_registry_is_a_set(entries: Seq<EntryView>)
    ensures
        registry(entries).no_duplicates(),
        !registry(entries).contains(local_chain()),
        forall|c: Seq<char>| #[trigger]
            registry(entries).contains(c) <==> c != local_chain() && (section_keys(
                entries,
                rpc_section(),
            ).contains(c) || section_keys(entries, explorer_section()).contains(c)),
{
    let rpc = section_keys(entries, rpc_section());
    let explorer = section_keys(entries, explorer_section());
    lemma_merge_chains(Seq::empty(), rpc + explorer);
    assert forall|c: Seq<char>| (rpc + explorer).contains(c) <==> rpc.contains(c)
        || explorer.contains(c) by {
        if rpc.contains(c) {
            let i = choose|i: int| 0 <= i < rpc.len() && rpc[i] == c;
            assert((rpc + explorer)[i] == c);
        }
        if explorer.contains(c) {
            let i = choose|i: int| 0 <= i < explorer.len() && explorer[i] == c;
            assert((rpc + explorer)[rpc.len() + i] == c);
        }
        if (rpc + explorer).contains(c) {
            let i = choose|i: int| 0 <= i < (rpc + explorer).len() && (rpc + explorer)[i] == c;
            if i < rpc.len() {
                assert(rpc[i] == c);
            } else {
                assert(explorer[i - rpc.len()] == c);
            }
        }
    }
}

/// Whether `names` holds `name`.
pub fn contains_name(names: &Vec<String>, name: &str) -> (found: bool)
    ensures
        found == names.deep_view().contains(name@),
{
    let mut i: usize = 0;
    while i < names.len()
        invariant
            i <= names.len(),
            forall|j: int| 0 <= j < i ==> names.deep_view()[j] != name@,
        decreases names.len() - i,
    {
        if same_text(names[i].as_str(), name) {
            assert(names.deep_view()[i as int] == name@);
            return true;
        }
        i += 1;
    }
    false
}

/// The keys of the section named `section`, where the document has such an
/// entry and it is a table.
fn keys_of_section<'a>(entries: &'a Vec<ConfigEntry>, section: &str) -> (keys: Option<
    &'a Vec<String>,
>)
    ensures
        match keys {
            Some(found) => found.deep_view() == section_keys(entries.deep_view(), section@),
            None => section_keys(entries.deep_view(), section@) == Seq::<Seq<char>>::empty(),
        },
{
    let mut i: usize = 0;
    while i < entries.len()
        invariant
            i <= entries.len(),
            section_keys(entries.deep_view(), section@) == section_keys_from(
                entries.deep_view(),
                section@,
                i as int,
            ),
        decreases entries.len() - i,
    {
        assert(entries.deep_view()[i as int] == entries[i as int]@);
        if same_text(entries[i].name.as_str(), section) {
            return entries[i].keys.as_ref();
        }
        i += 1;
    }
    None
}

/// Adds to `chains` each of `keys` that is a chain and is not yet among them.
fn add_chains(chains: &mut Vec<String>, keys: &Vec<String>)
    ensures
        final(chains).deep_view() == merge_chains(old(chains).deep_view(), keys.deep_view()),
{
    let mut i: usize = 0;
    while i < keys.len()
        invariant
            i <= keys.len(),
            chains.deep_view() == merge_chains(
                old(chains).deep_view(),
                keys.deep_view().take(i as int),
            ),
        decreases keys.len() - i,
    {
        let ghost before = chains.deep_view();
        proof {
            let upto = keys.deep_view().take(i + 1);
            assert(upto.drop_last() =~= keys.deep_view().take(i as int));
            assert(upto.last() == keys[i as int]@);
        }
        let key = &keys[i];
        if !same_text(key.as_str(), "localhost") && !contains_name(chains, key.as_str()) {
            chains.push(key.clone());
            assert(chains.deep_view() =~= before.push(key@));
        }
        i += 1;
    }
    assert(keys.deep_view().take(keys.len() as int) =~= keys.deep_view());
}

/// The chains that a configuration with these top-level entries defines: the
/// keys of the RPC endpoints section, then those of the block explorers
/// section, each once and without the local network.
pub fn chains_of(entries: &Vec<ConfigEntry>) -> (chains: Vec<String>)
    ensures
        chains.deep_view() == registry(entries.deep_view()),
        chains.deep_view().no_duplicates(),
        !chains.deep_view().contains(local_chain()),
{
    let mut chains: Vec<String> = Vec::new();
    let ghost rpc = section_keys(entries.deep_view(), rpc_section());
    let ghost explorer = section_keys(entries.deep_view(), explorer_section());
    assert(chains.deep_view() =~= Seq::<Seq<char>>::empty());
    match keys_of_section(entries, "rpc_endpoints") {
        Some(keys) => add_chains(&mut chains, keys),
        None => {},
    }
    assert(chains.deep_view() == merge_chains(Seq::empty(), rpc));
    match keys_of_section(entries, "etherscan") {
        Some(keys) => add_chains(&mut chains, keys),
        None => {},
    }
    proof {
        lemma_merge_concat(Seq::empty(), rpc, explorer);
        lemma_registry_is_a_set(entries.deep_view());
    }
    chains
}

/// Why the configuration yields no registry.
#[derive(Clone, Copy, Debug, PartialEq, Eq, Structural)]
pub enum ConfigError {
    /// The configuration file could not be read.
    Unreadable,
    /// The configuration file holds no TOML document.
    Unparsable,
}

impl ConfigError {
    /// The error in words.
    pub open spec fn message_text(self) -> Seq<char> {
        match self {
            ConfigError::Unreadable => "Failed to read the TOML file"@,
            ConfigError::Unparsable => "Failed to parse TOML content"@,
        }
    }

    /// The error in words.
    pub fn message(&self) -> (text: &'static str)
        ensures
            text@ == self.message_text(),
    {
        match self {
            ConfigError::Unreadable => "Failed to read the TOML file",
            ConfigError::Unparsable => "Failed to parse TOML content",
        }
    }
}

/// The chains that the configuration defines, given the text of the
/// configuration file, or `None` where the file could not be read. Neither
/// failure is fatal: the caller reports it and goes on with no chain known.
pub fn load_chains(toml_content: Option<&str>) -> (chains: Result<Vec<String>, ConfigError>)
    ensures
        match toml_content {
            None => chains == Err::<Vec<String>, ConfigError>(ConfigError::Unreadable),
            Some(content) => match toml_entries(content@) {
                None => chains == Err::<Vec<String>, ConfigError>(ConfigError::Unparsable),
                Some(entries) => chains matches Ok(found) && found.deep_view() == registry(entries)
                    && found.deep_view().no_duplicates() && !found.deep_view().contains(
                    local_chain(),
                ),
            },
        },
{
    match toml_content {
        None => Err(ConfigError::Unreadable),
        Some(content) => match parse_entries(content) {
            Some(entries) => Ok(chains_of(&entries)),
            None => Err(ConfigError::Unparsable),
        },
    }
}

/// The chains that the configuration text defines; none when the text is no
/// TOML document.
pub fn get_all_chains(toml_content: &str) -> (chains: Vec<String>)
    ensures
        chains.deep_view() == match toml_entries(toml_content@) {
            Some(entries) => registry(entries),
            None => Seq::empty(),
        },
        chains.deep_view().no_duplicates(),
        !chains.deep_view().contains(local_chain()),
{
    match load_chains(Some(toml_content)) {
        Ok(chains) => chains,
        Err(_) => {
            let chains: Vec<String> = Vec::new();
            assert(chains.deep_view() =~= Seq::<Seq<char>>::empty());
            chains
        },
    }
}

} // verus!
