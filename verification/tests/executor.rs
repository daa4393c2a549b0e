use deploy_multi_chain::executor::{
    admin_address, build_profile, command_args, deployer_program, holds, next_step,
    outcome_failed, report, AdminEntry, AdminTable, ExecutionOutcome, FailurePolicy, Step,
};
use deploy_multi_chain::request::{DeploymentRequest, ScriptVariant};

fn list(items: &[&str]) -> Vec<String> {
    items.iter().map(|s| s.to_string()).collect()
}

fn request(script: ScriptVariant, broadcast: bool, gas_price: Option<&str>) -> DeploymentRequest {
    DeploymentRequest {
        chains: list(&["base"]),
        script,
        broadcast,
        gas_price: gas_price.map(|s| s.to_string()),
        copy_broadcast_file: false,
    }
}

fn outcome(success: bool, stdout: &str, stderr: &str) -> ExecutionOutcome {
    ExecutionOutcome { success, stdout: stdout.to_string(), stderr: stderr.to_string() }
}

#[test]
fn simulation_has_the_fixed_arguments_only() {
    let args = command_args(&request(ScriptVariant::Standard, false, None), "base", None);
    assert_eq!(args, list(&["script", "../script/protocol/DeployProtocol.s.sol", "--rpc-url", "base"]));
}

#[test]
fn every_option_adds_its_arguments_in_order() {
    let args = command_args(
        &request(ScriptVariant::Deterministic, true, Some("20")),
        "arbitrum",
        Some("0xAd"),
    );
    assert_eq!(
        args,
        list(&[
            "script",
            "../script/protocol/DeployDeterministicProtocol.s.sol",
            "--rpc-url",
            "arbitrum",
            "--broadcast",
            "--verify",
            "--gas-price",
            "20",
            "--sig",
            "run(address)",
            "0xAd",
        ])
    );
}

#[test]
fn gas_price_alone_is_forwarded() {
    let args = command_args(&request(ScriptVariant::Standard, false, Some("1 gwei")), "base", None);
    assert_eq!(
        args,
        list(&[
            "script",
            "../script/protocol/DeployProtocol.s.sol",
            "--rpc-url",
            "base",
            "--gas-price",
            "1 gwei",
        ])
    );
}

#[test]
fn deployer_and_profile_are_fixed() {
    assert_eq!(deployer_program(), "forge");
    assert_eq!(build_profile(), ("FOUNDRY_PROFILE", "optimized"));
}

#[test]
fn admin_falls_back_to_the_default() {
    let table = AdminTable {
        entries: vec![
            AdminEntry { chain: "mainnet".to_string(), admin: "0x01".to_string() },
            AdminEntry { chain: "base".to_string(), admin: "0x02".to_string() },
            AdminEntry { chain: "mainnet".to_string(), admin: "0x03".to_string() },
        ],
        default_admin: "0xff".to_string(),
    };
    assert_eq!(admin_address(&table, "mainnet"), "0x01");
    assert_eq!(admin_address(&table, "base"), "0x02");
    assert_eq!(admin_address(&table, "sepolia"), "0xff");
}

#[test]
fn failure_is_the_exit_status_or_the_marker() {
    assert!(outcome_failed(&outcome(false, "", ""), None));
    assert!(!outcome_failed(&outcome(true, "Error: x", ""), None));
    assert!(outcome_failed(&outcome(true, "Error: x", ""), Some("Error")));
    assert!(outcome_failed(&outcome(true, "fine", "an Error"), Some("Error")));
    assert!(!outcome_failed(&outcome(true, "fine", "error"), Some("Error")));
    assert!(outcome_failed(&outcome(false, "fine", "fine"), Some("Error")));
}

#[test]
fn holds_finds_a_pattern_anywhere() {
    assert!(holds("abc", "bc"));
    assert!(holds("abc", ""));
    assert!(!holds("abc", "cb"));
    assert!(!holds("", "a"));
}

#[test]
fn report_shows_the_right_stream() {
    let shown = report(&outcome(true, "deployed", "warnings"));
    assert!(!shown.is_error);
    assert_eq!(shown.text, "Command output: deployed");
    let shown = report(&outcome(false, "deployed", "boom"));
    assert!(shown.is_error);
    assert_eq!(shown.text, "Command failed with error: boom");
}

#[test]
fn chains_are_gone_through_in_order() {
    assert_eq!(next_step(3, 0, false, FailurePolicy::Continue), Step::Deploy { index: 0 });
    assert_eq!(next_step(3, 1, false, FailurePolicy::Continue), Step::Deploy { index: 1 });
    assert_eq!(next_step(3, 2, true, FailurePolicy::Continue), Step::Deploy { index: 2 });
    assert_eq!(next_step(3, 3, true, FailurePolicy::Continue), Step::Format);
    assert_eq!(next_step(0, 0, false, FailurePolicy::Continue), Step::Format);
}

#[test]
fn halt_policy_stops_at_the_first_failure() {
    assert_eq!(next_step(3, 0, true, FailurePolicy::Halt), Step::Deploy { index: 0 });
    assert_eq!(next_step(3, 1, false, FailurePolicy::Halt), Step::Deploy { index: 1 });
    assert_eq!(next_step(3, 2, true, FailurePolicy::Halt), Step::Halt { index: 1 });
    assert_eq!(next_step(3, 3, true, FailurePolicy::Halt), Step::Halt { index: 2 });
    assert_eq!(next_step(3, 3, false, FailurePolicy::Halt), Step::Format);
}

#[test]
fn default_policy_continues() {
    assert_eq!(FailurePolicy::default(), FailurePolicy::Continue);
}
