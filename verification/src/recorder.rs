//! The deployment log: where it lives, where an earlier log is set aside, and
//! the line that says what kind of run wrote it.

use crate::files::{parent_dir, parent_of, run_steps, Files, FsStep, FsStepView};
use crate::interpreter::ContractAddress;
use crate::text::{decimal, decimal_string};
use std::time::{SystemTime, UNIX_EPOCH};
use vstd::prelude::*;

verus! {

/// The directory that holds the deployment logs.
pub open spec fn log_directory() -> Seq<char> {
    "../deployments/"@
}

/// The log's file name for the script variant.
pub open spec fn log_file_name(is_deterministic: bool) -> Seq<char> {
    if is_deterministic {
        "deterministic.md"@
    } else {
        "non_deterministic.md"@
    }
}

/// The path of the deployment log for the script variant.
pub open spec fn log_path(is_deterministic: bool) -> Seq<char> {
    log_directory() + log_file_name(is_deterministic)
}

/// The path under which a log that was there at `timestamp` (seconds since
/// the Unix epoch) is set aside: the same directory, the file name prefixed
/// with the timestamp and an underscore.
pub open spec fn rotated_log_path(is_deterministic: bool, timestamp: nat) -> Seq<char> {
    log_directory() + decimal(timestamp) + "_"@ + log_file_name(is_deterministic)
}

/// The path that `deployment_path_at` gives.
pub open spec fn deployment_path(is_deterministic: bool, timestamp: Option<u64>) -> Seq<char> {
    match timestamp {
        None => log_path(is_deterministic),
        Some(t) => rotated_log_path(is_deterministic, t as nat),
    }
}

/// The line that opens a log, telling a broadcast from a simulation.
pub open spec fn deployment_type_line(is_broadcast_deployment: bool) -> Seq<char> {
    if is_broadcast_deployment {
        " # This deployment is broadcasted\n\n"@
    } else {
        " # This deployment is a simulation\n\n"@
    }
}

/// The system clock by `SystemTime::now`, in whole seconds since the Unix
/// epoch; `None` when the clock stands before the epoch. Nothing is claimed
/// of the value: it differs from call to call.
#[verifier::external_body]
fn unix_seconds() -> Option<u64> {
    match SystemTime::now().duration_since(UNIX_EPOCH) {
        Ok(elapsed) => Some(elapsed.as_secs()),
        Err(_) => None,
    }
}

/// The log's file name for the script variant.
fn file_name(is_deterministic: bool) -> (name: &'static str)
    ensures
        name@ == log_file_name(is_deterministic),
{
    if is_deterministic {
        "deterministic.md"
    } else {
        "non_deterministic.md"
    }
}

/// The path of the deployment log, or with a timestamp the path under which
/// an earlier log is set aside.
pub fn deployment_path_at(is_deterministic: bool, timestamp: Option<u64>) -> (path: String)
    ensures
        path@ == deployment_path(is_deterministic, timestamp),
{
    let mut path = String::from_str("../deployments/");
    match timestamp {
        None => {},
        Some(t) => {
            let numeral = decimal_string(t);
            path.append(numeral.as_str());
            path.append("_");
        },
    }
    path.append(file_name(is_deterministic));
    path
}

/// The path of the deployment log for the script variant. With
/// `with_timestamp`, the path under which an earlier log is set aside now: the
/// file name prefixed with the clock's seconds since the Unix epoch; `None`
/// when the clock stands before the epoch.
pub fn get_deployment_path(is_deterministic: bool, with_timestamp: bool) -> (path: Option<String>)
    ensures
        !with_timestamp ==> path.deep_view() == Some(log_path(is_deterministic)),
        with_timestamp ==> match path {
            Some(p) => exists|t: u64| p@ == rotated_log_path(is_deterministic, t as nat),
            None => true,
        },
{
    if with_timestamp {
        match unix_seconds() {
            Some(t) => {
                let path = deployment_path_at(is_deterministic, Some(t));
                assert(path@ == rotated_log_path(is_deterministic, t as nat));
                Some(path)
            },
            None => None,
        }
    } else {
        Some(deployment_path_at(is_deterministic, None))
    }
}

/// The line that opens the log of a run: a broadcast or a simulation.
pub fn type_of_deployment(is_broadcast_deployment: bool) -> (line: &'static str)
    ensures
        line@ == deployment_type_line(is_broadcast_deployment),
{
    if is_broadcast_deployment {
        " # This deployment is broadcasted\n\n"
    } else {
        " # This deployment is a simulation\n\n"
    }
}

/// The steps that write the opening line of a run's log. A log that is
/// already there is first set aside under its timestamped name; where there
/// is none, the log's directory is created first.
pub open spec fn log_entry_steps(
    is_deterministic: bool,
    is_broadcast_deployment: bool,
    log_exists: bool,
    timestamp: nat,
) -> Seq<FsStepView> {
    let path = log_path(is_deterministic);
    let entry = FsStepView::Append { path, text: deployment_type_line(is_broadcast_deployment) };
    if log_exists {
        seq![
            FsStepView::Rename { from: path, to: rotated_log_path(is_deterministic, timestamp) },
            entry,
        ]
    } else {
        seq![FsStepView::CreateDirAll { path: parent_dir(path) }, entry]
    }
}

/// Plans the steps that write the opening line of a run's log, given whether
/// a log is already there and the time in seconds since the Unix epoch.
pub fn plan_log_entry(
    is_deterministic: bool,
    is_broadcast_deployment: bool,
    log_exists: bool,
    timestamp: u64,
) -> (steps: Vec<FsStep>)
    ensures
        steps.deep_view() == log_entry_steps(
            is_deterministic,
            is_broadcast_deployment,
            log_exists,
            timestamp as nat,
        ),
{
    let path = deployment_path_at(is_deterministic, None);
    let mut steps: Vec<FsStep> = Vec::new();
    if log_exists {
        let to = deployment_path_at(is_deterministic, Some(timestamp));
        steps.push(FsStep::Rename { from: path.clone(), to });
    } else {
        steps.push(FsStep::CreateDirAll { path: parent_of(path.as_str()) });
    }
    steps.push(
        FsStep::Append {
            path,
            text: String::from_str(type_of_deployment(is_broadcast_deployment)),
        },
    );
    assert(steps.deep_view() =~= log_entry_steps(
        is_deterministic,
        is_broadcast_deployment,
        log_exists,
        timestamp as nat,
    ));
    steps
}

/// Plans the steps that write the opening line of a run's log now: a log
/// that is already there is set aside under the clock's timestamp. `None`
/// when a log is there and the clock stands before the epoch.
pub fn plan_log_entry_now(
    is_deterministic: bool,
    is_broadcast_deployment: bool,
    log_exists: bool,
) -> (steps: Option<Vec<FsStep>>)
    ensures
        !log_exists ==> steps.deep_view() == Some(
            log_entry_steps(is_deterministic, is_broadcast_deployment, false, 0),
        ),
        log_exists ==> match steps {
            Some(todo) => exists|t: u64|
                todo.deep_view() == log_entry_steps(
                    is_deterministic,
                    is_broadcast_deployment,
                    true,
                    t as nat,
                ),
            None => true,
        },
{
    if log_exists {
        match unix_seconds() {
            Some(t) => {
                let todo = plan_log_entry(is_deterministic, is_broadcast_deployment, true, t);
                assert(todo.deep_view() == log_entry_steps(
                    is_deterministic,
                    is_broadcast_deployment,
                    true,
                    t as nat,
                ));
                Some(todo)
            },
            None => None,
        }
    } else {
        Some(plan_log_entry(is_deterministic, is_broadcast_deployment, false, 0))
    }
}

/// A log is never set aside onto itself.
pub proof fn lemma_rotated_path_differs(is_deterministic: bool, timestamp: nat)
    ensures
        rotated_log_path(is_deterministic, timestamp) != log_path(is_deterministic),
{
    reveal_strlit("_");
    assert(rotated_log_path(is_deterministic, timestamp).len() > log_path(is_deterministic).len());
}

/// Writing the opening line where a log is already there loses nothing: the
/// earlier log stands whole under the timestamped name, and the log itself
/// holds the new line and nothing else.
pub proof fn lemma_rotation_keeps_the_log(
    files: Files,
    is_deterministic: bool,
    is_broadcast_deployment: bool,
    timestamp: nat,
)
    requires
        files.contains_key(log_path(is_deterministic)),
    ensures
        match run_steps(
            files,
            log_entry_steps(is_deterministic, is_broadcast_deployment, true, timestamp),
        ) {
            Some(after) => {
                &&& after.contains_key(rotated_log_path(is_deterministic, timestamp))
                &&& after[rotated_log_path(is_deterministic, timestamp)] == files[log_path(
                    is_deterministic,
                )]
                &&& after.contains_key(log_path(is_deterministic))
                &&& after[log_path(is_deterministic)] == deployment_type_line(
                    is_broadcast_deployment,
                )
            },
            None => false,
        },
{
    let path = log_path(is_deterministic);
    let aside = rotated_log_path(is_deterministic, timestamp);
    let steps = log_entry_steps(is_deterministic, is_broadcast_deployment, true, timestamp);
    lemma_rotated_path_differs(is_deterministic, timestamp);
    let renamed = files.remove(path).insert(aside, files[path]);
    assert(crate::files::run_step(files, steps[0]) == Some(renamed));
    let rest = steps.drop_first();
    assert(rest.len() == 1);
    assert(!renamed.contains_key(path));
    let written = renamed.insert(path, deployment_type_line(is_broadcast_deployment));
    assert(crate::files::run_step(renamed, rest[0]) == Some(written));
    assert(rest.drop_first().len() == 0);
    assert(run_steps(written, rest.drop_first()) == Some(written));
    assert(run_steps(renamed, rest) == Some(written));
    assert(run_steps(files, steps) == Some(written));
}

/// One line for each address: the label, a colon and a blank, the address.
pub open spec fn address_lines(entries: Seq<(Seq<char>, Seq<char>)>) -> Seq<char>
    decreases entries.len(),
{
    if entries.len() == 0 {
        Seq::empty()
    } else {
        address_lines(entries.drop_last()) + entries.last().0 + ": "@ + entries.last().1 + "\n"@
    }
}

/// The text of a chain's address file: the core contracts under their
/// heading, then the periphery contracts under theirs.
pub open spec fn address_listing(
    core: Seq<(Seq<char>, Seq<char>)>,
    periphery: Seq<(Seq<char>, Seq<char>)>,
) -> Seq<char> {
    "## Core\n\n"@ + address_lines(core) + "\n## Periphery\n\n"@ + address_lines(periphery)
}

/// Appends one line for each address to `text`.
fn append_address_lines(text: &mut String, entries: &Vec<ContractAddress>)
    ensures
        final(text)@ == old(text)@ + address_lines(entries.deep_view()),
{
    let mut i: usize = 0;
    assert(text@ =~= old(text)@ + address_lines(entries.deep_view().take(0)));
    while i < entries.len()
        invariant
            i <= entries.len(),
            text@ == old(text)@ + address_lines(entries.deep_view().take(i as int)),
        decreases entries.len() - i,
    {
        proof {
            let upto = entries.deep_view().take(i + 1);
            assert(upto.drop_last() =~= entries.deep_view().take(i as int));
            assert(upto.last() == entries[i as int]@);
        }
        let ghost before = text@;
        text.append(entries[i].label.as_str());
        text.append(": ");
        text.append(entries[i].address.as_str());
        text.append("\n");
        assert(text@ =~= old(text)@ + address_lines(entries.deep_view().take(i + 1)));
        i += 1;
    }
    assert(entries.deep_view().take(entries.len() as int) =~= entries.deep_view());
}

/// The text of a chain's address file, listing the addresses that were
/// extracted for its core and its periphery contracts.
pub fn render_addresses(core: &Vec<ContractAddress>, periphery: &Vec<ContractAddress>) -> (text:
    String)
    ensures
        text@ == address_listing(core.deep_view(), periphery.deep_view()),
{
    let mut text = String::from_str("## Core\n\n");
    append_address_lines(&mut text, core);
    text.append("\n## Periphery\n\n");
    append_address_lines(&mut text, periphery);
    text
}

} // verus!
