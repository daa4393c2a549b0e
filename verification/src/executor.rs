//! The deployment executor, as far as it decides: the deployer's command
//! line for one chain, the admin address to sign for, whether a run of the
//! deployer failed, and what to do next.

use crate::request::DeploymentRequest;
use crate::text::{chars_of, find_from, find_in, same_text};
use vstd::prelude::*;

verus! {

/// The admin address of one chain.
#[derive(Clone, Debug, PartialEq, Eq)]
pub struct AdminEntry {
    pub chain: String,
    pub admin: String,
}

impl View for AdminEntry {
    type V = (Seq<char>, Seq<char>);

    open spec fn view(&self) -> (Seq<char>, Seq<char>) {
        (self.chain@, self.admin@)
    }
}

impl DeepView for AdminEntry {
    type V = (Seq<char>, Seq<char>);

    open spec fn deep_view(&self) -> (Seq<char>, Seq<char>) {
        self@
    }
}

/// The admin addresses by chain, with the address to use for a chain that
/// has no entry of its own.
#[derive(Clone, Debug, PartialEq, Eq)]
pub struct AdminTable {
    pub entries: Vec<AdminEntry>,
    pub default_admin: String,
}

/// The admin of the first entry at or after `from` that is for `chain`, or
/// `fallback` when there is none.
pub open spec fn admin_from(
    entries: Seq<(Seq<char>, Seq<char>)>,
    fallback: Seq<char>,
    chain: Seq<char>,
    from: int,
) -> Seq<char>
    decreases entries.len() - from,
{
    if from < 0 || from >= entries.len() {
        fallback
    } else if entries[from].0 == chain {
        entries[from].1
    } else {
        admin_from(entries, fallback, chain, from + 1)
    }
}

/// The admin address for `chain`: that of its first entry, or `fallback`.
pub open spec fn admin_of(
    entries: Seq<(Seq<char>, Seq<char>)>,
    fallback: Seq<char>,
    chain: Seq<char>,
) -> Seq<char> {
    admin_from(entries, fallback, chain, 0)
}

/// The deployer's arguments that say whether to broadcast.
pub open spec fn broadcast_args(broadcast: bool) -> Seq<Seq<char>> {
    if broadcast {
        seq!["--broadcast"@, "--verify"@]
    } else {
        Seq::empty()
    }
}

/// The deployer's arguments that override the gas price.
pub open spec fn gas_price_args(gas_price: Option<Seq<char>>) -> Seq<Seq<char>> {
    match gas_price {
        Some(value) => seq!["--gas-price"@, value],
        None => Seq::empty(),
    }
}

/// The deployer's arguments that name the admin to sign for.
pub open spec fn signature_args(admin: Option<Seq<char>>) -> Seq<Seq<char>> {
    match admin {
        Some(address) => seq!["--sig"@, "run(address)"@, address],
        None => Seq::empty(),
    }
}

/// The deployer's arguments for one chain: the script, the chain as the RPC
/// endpoint, then what broadcasting, the gas price and the admin ask for.
pub open spec fn deployer_args(
    script_file: Seq<char>,
    chain: Seq<char>,
    broadcast: bool,
    gas_price: Option<Seq<char>>,
    admin: Option<Seq<char>>,
) -> Seq<Seq<char>> {
    seq!["script"@, "../script/protocol/"@ + script_file, "--rpc-url"@, chain] + broadcast_args(
        broadcast,
    ) + gas_price_args(gas_price) + signature_args(admin)
}

/// The program that deploys.
pub fn deployer_program() -> (program: &'static str)
    ensures
        program@ == "forge"@,
{
    "forge"
}

/// The environment variable that selects the deployer's build profile, and
/// its value.
pub fn build_profile() -> (variable: (&'static str, &'static str))
    ensures
        variable.0@ == "FOUNDRY_PROFILE"@,
        variable.1@ == "optimized"@,
{
    ("FOUNDRY_PROFILE", "optimized")
}

/// The admin address to sign for on `chain`.
pub fn admin_address(table: &AdminTable, chain: &str) -> (admin: String)
    ensures
        admin@ == admin_of(table.entries.deep_view(), table.default_admin@, chain@),
{
    let mut i: usize = 0;
    while i < table.entries.len()
        invariant
            i <= table.entries.len(),
            admin_of(table.entries.deep_view(), table.default_admin@, chain@) == admin_from(
                table.entries.deep_view(),
                table.default_admin@,
                chain@,
                i as int,
            ),
        decreases table.entries.len() - i,
    {
        assert(table.entries.deep_view()[i as int] == table.entries[i as int]@);
        if same_text(table.entries[i].chain.as_str(), chain) {
            return table.entries[i].admin.clone();
        }
        i += 1;
    }
    table.default_admin.clone()
}

/// The deployer's arguments for deploying `request` to `chain`, signing for
/// `admin` where one is given.
pub fn command_args(request: &DeploymentRequest, chain: &str, admin: Option<&str>) -> (args: Vec<
    String,
>)
    ensures
        args.deep_view() == deployer_args(
            request.script.file_name_text(),
            chain@,
            request.broadcast,
            request.gas_price.deep_view(),
            match admin {
                Some(address) => Some(address@),
                None => None,
            },
        ),
{
    let mut script_path = String::from_str("../script/protocol/");
    script_path.append(request.script.file_name());
    let mut args: Vec<String> = Vec::new();
    args.push(String::from_str("script"));
    args.push(script_path);
    args.push(String::from_str("--rpc-url"));
    args.push(String::from_str(chain));
    let ghost fixed = args.deep_view();
    assert(fixed =~= seq![
        "script"@,
        "../script/protocol/"@ + request.script.file_name_text(),
        "--rpc-url"@,
        chain@,
    ]);
    if request.broadcast {
        args.push(String::from_str("--broadcast"));
        args.push(String::from_str("--verify"));
    }
    let ghost with_mode = args.deep_view();
    assert(with_mode =~= fixed + broadcast_args(request.broadcast));
    match &request.gas_price {
        Some(value) => {
            args.push(String::from_str("--gas-price"));
            args.push(value.clone());
        },
        None => {},
    }
    let ghost with_gas = args.deep_view();
    assert(with_gas =~= with_mode + gas_price_args(request.gas_price.deep_view()));
    match admin {
        Some(address) => {
            args.push(String::from_str("--sig"));
            args.push(String::from_str("run(address)"));
            args.push(String::from_str(address));
            assert(args.deep_view() =~= with_gas + signature_args(Some(address@)));
        },
        None => {
            assert(args.deep_view() =~= with_gas + signature_args(None));
        },
    }
    args
}

/// What one run of the deployer left: whether it exited with success, and
/// what it wrote to its two streams.
#[derive(Clone, Debug, PartialEq, Eq)]
pub struct ExecutionOutcome {
    pub success: bool,
    pub stdout: String,
    pub stderr: String,
}

/// The run failed: it did not exit with success, or one of its streams holds
/// the error marker, where one is watched for.
pub open spec fn has_failed(
    success: bool,
    stdout: Seq<char>,
    stderr: Seq<char>,
    marker: Option<Seq<char>>,
) -> bool {
    ||| !success
    ||| marker matches Some(m) && find_from(stdout, m, 0) is Some
    ||| marker matches Some(m) && find_from(stderr, m, 0) is Some
}

/// Whether `text` holds `pattern`.
pub fn holds(text: &str, pattern: &str) -> (found: bool)
    ensures
        found == find_from(text@, pattern@, 0) is Some,
{
    let hay = chars_of(text);
    let pat = chars_of(pattern);
    find_in(&hay, &pat, 0).is_some()
}

/// Whether the run of the deployer failed: by its exit status, or by
/// `error_marker` in its output where a marker is given.
pub fn outcome_failed(outcome: &ExecutionOutcome, error_marker: Option<&str>) -> (failed: bool)
    ensures
        failed == has_failed(
            outcome.success,
            outcome.stdout@,
            outcome.stderr@,
            match error_marker {
                Some(m) => Some(m@),
                None => None,
            },
        ),
{
    if !outcome.success {
        return true;
    }
    match error_marker {
        Some(marker) => holds(outcome.stdout.as_str(), marker) || holds(
            outcome.stderr.as_str(),
            marker,
        ),
        None => false,
    }
}

/// What the operator is shown after a run of the deployer, and whether it
/// goes to the error stream.
#[derive(Clone, Debug, PartialEq, Eq)]
pub struct Report {
    pub is_error: bool,
    pub text: String,
}

/// The words of a report: the output of a run that exited with success, the
/// error stream of one that did not.
pub open spec fn report_text(success: bool, stdout: Seq<char>, stderr: Seq<char>) -> Seq<char> {
    if success {
        "Command output: "@ + stdout
    } else {
        "Command failed with error: "@ + stderr
    }
}

/// What to show the operator after a run of the deployer.
pub fn report(outcome: &ExecutionOutcome) -> (shown: Report)
    ensures
        shown.is_error == !outcome.success,
        shown.text@ == report_text(outcome.success, outcome.stdout@, outcome.stderr@),
{
    if outcome.success {
        let mut text = String::from_str("Command output: ");
        text.append(outcome.stdout.as_str());
        Report { is_error: false, text }
    } else {
        let mut text = String::from_str("Command failed with error: ");
        text.append(outcome.stderr.as_str());
        Report { is_error: true, text }
    }
}

/// What a failed chain means for the chains after it.
#[derive(Clone, Copy, Debug, PartialEq, Eq, Structural)]
pub enum FailurePolicy {
    /// Each chain stands for itself: go on with the next.
    Continue,
    /// Stop the whole run at the first chain that fails.
    Halt,
}

impl Default for FailurePolicy {
    fn default() -> (policy: FailurePolicy)
        ensures
            policy == FailurePolicy::Continue,
    {
        FailurePolicy::Continue
    }
}

/// The next thing for a run to do.
#[derive(Clone, Copy, Debug, PartialEq, Eq, Structural)]
pub enum Step {
    /// Deploy to the chain at this index of the request.
    Deploy { index: usize },
    /// Every chain was gone through: format the outputs and end.
    Format,
    /// The chain at this index failed and the policy stops the run.
    Halt { index: usize },
}

/// The step that follows when `completed` of `chains` chains were gone
/// through, the last of them with or without failure.
pub open spec fn step_after(
    chains: usize,
    completed: usize,
    last_failed: bool,
    policy: FailurePolicy,
) -> Step {
    if completed > 0 && last_failed && policy == FailurePolicy::Halt {
        Step::Halt { index: (completed - 1) as usize }
    } else if completed < chains {
        Step::Deploy { index: completed }
    } else {
        Step::Format
    }
}

/// What a run does next: chains are gone through one at a time, in the order
/// of the request; a failure stops the run only under `FailurePolicy::Halt`.
pub fn next_step(chains: usize, completed: usize, last_failed: bool, policy: FailurePolicy) -> (step:
    Step)
    ensures
        step == step_after(chains, completed, last_failed, policy),
{
    if completed > 0 && last_failed && policy == FailurePolicy::Halt {
        Step::Halt { index: completed - 1 }
    } else if completed < chains {
        Step::Deploy { index: completed }
    } else {
        Step::Format
    }
}

} // verus!
