use deploy_multi_chain::request::{
    build_request, parse_args, resolve, ArgError, DeploymentRequest, ParsedArgs, ScriptVariant,
    Warning,
};

fn list(items: &[&str]) -> Vec<String> {
    items.iter().map(|s| s.to_string()).collect()
}

#[test]
fn broadcast_to_two_chains() {
    let args = list(&["--broadcast", "arbitrum", "base"]);
    let registry = list(&["arbitrum", "base", "mainnet"]);
    let (request, warnings) = build_request(&args, &registry).unwrap();
    assert_eq!(
        request,
        DeploymentRequest {
            chains: list(&["arbitrum", "base"]),
            script: ScriptVariant::Standard,
            broadcast: true,
            gas_price: None,
            copy_broadcast_file: false,
        }
    );
    assert!(warnings.is_empty());
}

#[test]
fn no_chain_and_no_all_targets_the_default() {
    let registry = list(&["arbitrum", "base", "mainnet"]);
    for args in [list(&[]), list(&["--broadcast"]), list(&["--gas-price", "mainnet", "--cp-bf"])] {
        let (request, _) = build_request(&args, &registry).unwrap();
        assert_eq!(request.chains, list(&["sepolia"]));
    }
    let (request, _) = build_request(&list(&[]), &list(&[])).unwrap();
    assert_eq!(request.chains, list(&["sepolia"]));
}

#[test]
fn all_ignores_named_chains_with_a_warning_each() {
    let registry = list(&["arbitrum", "base", "mainnet"]);
    let args = list(&["base", "--all", "optimism", "base"]);
    let (request, warnings) = build_request(&args, &registry).unwrap();
    assert_eq!(request.chains, registry);
    assert_eq!(
        warnings,
        vec![
            Warning::IgnoredChain("base".to_string()),
            Warning::IgnoredChain("optimism".to_string()),
            Warning::IgnoredChain("base".to_string()),
        ]
    );
}

#[test]
fn all_with_empty_registry_targets_nothing() {
    let (request, warnings) = build_request(&list(&["--all"]), &list(&[])).unwrap();
    assert_eq!(request.chains, Vec::<String>::new());
    assert!(warnings.is_empty());
}

#[test]
fn unknown_chains_are_dropped_with_a_warning() {
    let registry = list(&["arbitrum", "base"]);
    let args = list(&["optimism", "base", "polygon", "base"]);
    let (request, warnings) = build_request(&args, &registry).unwrap();
    assert_eq!(request.chains, list(&["base", "base"]));
    assert_eq!(
        warnings,
        vec![
            Warning::UnknownChain("optimism".to_string()),
            Warning::UnknownChain("polygon".to_string()),
        ]
    );
}

#[test]
fn only_unknown_chains_fall_back_to_the_default() {
    let (request, warnings) = build_request(&list(&["optimism"]), &list(&["base"])).unwrap();
    assert_eq!(request.chains, list(&["sepolia"]));
    assert_eq!(warnings, vec![Warning::UnknownChain("optimism".to_string())]);
}

#[test]
fn missing_gas_price_value_is_an_error() {
    assert_eq!(parse_args(&list(&["--gas-price"])).unwrap_err(), ArgError::MissingGasPrice);
    assert_eq!(
        build_request(&list(&["base", "--broadcast", "--gas-price"]), &list(&["base"]))
            .unwrap_err(),
        ArgError::MissingGasPrice
    );
    assert_eq!(ArgError::MissingGasPrice.message(), "missing value after --gas-price");
}

#[test]
fn gas_price_takes_the_next_token_verbatim() {
    let parsed = parse_args(&list(&["--gas-price", "--all", "base"])).unwrap();
    assert_eq!(parsed.gas_price, Some("--all".to_string()));
    assert!(!parsed.all_chains);
    assert_eq!(parsed.chains, list(&["base"]));

    let parsed = parse_args(&list(&["--gas-price", "--gas-price", "5"])).unwrap();
    assert_eq!(parsed.gas_price, Some("--gas-price".to_string()));
    assert_eq!(parsed.chains, list(&["5"]));

    let parsed = parse_args(&list(&["--gas-price", "1", "--gas-price", "2"])).unwrap();
    assert_eq!(parsed.gas_price, Some("2".to_string()));
    assert_eq!(
        parse_args(&list(&["--gas-price", "--gas-price", "--gas-price"])).unwrap_err(),
        ArgError::MissingGasPrice
    );
}

#[test]
fn every_flag_is_read() {
    let args =
        list(&["--cp-bf", "base", "--deterministic", "--broadcast", "--what", "--all", "-x"]);
    let parsed = parse_args(&args).unwrap();
    assert_eq!(
        parsed,
        ParsedArgs {
            all_chains: true,
            deterministic: true,
            broadcast: true,
            copy_broadcast_file: true,
            gas_price: None,
            chains: list(&["base", "-x"]),
            unknown_flags: list(&["--what"]),
        }
    );
}

#[test]
fn no_argument_sets_nothing() {
    let parsed = parse_args(&list(&[])).unwrap();
    assert_eq!(
        parsed,
        ParsedArgs {
            all_chains: false,
            deterministic: false,
            broadcast: false,
            copy_broadcast_file: false,
            gas_price: None,
            chains: Vec::new(),
            unknown_flags: Vec::new(),
        }
    );
}

#[test]
fn unknown_flags_warn_before_chains() {
    let args = list(&["optimism", "--verbose", "--deterministic", "--gas-price", "3"]);
    let (request, warnings) = build_request(&args, &list(&["base"])).unwrap();
    assert_eq!(request.script, ScriptVariant::Deterministic);
    assert_eq!(request.gas_price, Some("3".to_string()));
    assert!(!request.broadcast);
    assert_eq!(
        warnings,
        vec![
            Warning::UnknownFlag("--verbose".to_string()),
            Warning::UnknownChain("optimism".to_string()),
        ]
    );
}

#[test]
fn resolve_carries_the_options_over() {
    let options = ParsedArgs {
        all_chains: false,
        deterministic: true,
        broadcast: true,
        copy_broadcast_file: true,
        gas_price: Some("9".to_string()),
        chains: list(&["base"]),
        unknown_flags: Vec::new(),
    };
    let (request, warnings) = resolve(options, &list(&["mainnet", "base"]));
    assert_eq!(
        request,
        DeploymentRequest {
            chains: list(&["base"]),
            script: ScriptVariant::Deterministic,
            broadcast: true,
            gas_price: Some("9".to_string()),
            copy_broadcast_file: true,
        }
    );
    assert!(warnings.is_empty());
}

#[test]
fn warnings_have_words() {
    assert_eq!(Warning::UnknownFlag("--x".to_string()).message(), "Unknown flag: --x");
    assert_eq!(
        Warning::UnknownChain("moon".to_string()).message(),
        "Chain moon is not configured in the TOML file"
    );
    assert_eq!(
        Warning::IgnoredChain("base".to_string()).message(),
        "Chain base is ignored: deploying to all chains"
    );
}

#[test]
fn script_variants_name_their_files() {
    assert_eq!(ScriptVariant::Standard.file_name(), "DeployProtocol.s.sol");
    assert_eq!(ScriptVariant::Deterministic.file_name(), "DeployDeterministicProtocol.s.sol");
    assert_eq!(ScriptVariant::from_flag(true), ScriptVariant::Deterministic);
    assert_eq!(ScriptVariant::from_flag(false), ScriptVariant::Standard);
}
