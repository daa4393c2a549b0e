use deploy_multi_chain::interpreter::{
    extract, extract_address, extract_network_id, ContractAddress,
};

#[test]
fn network_id_follows_the_broadcast_marker() {
    let output = "Transactions saved to: broadcast/DeployProtocol.s.sol/8453/run-latest.json";
    assert_eq!(extract_network_id(output, "DeployProtocol.s.sol"), "8453");
}

#[test]
fn network_id_is_empty_without_marker() {
    assert_eq!(extract_network_id("nothing to see", "DeployProtocol.s.sol"), "");
    assert_eq!(extract_network_id("", "DeployProtocol.s.sol"), "");
    let other = "broadcast/DeployDeterministicProtocol.s.sol/1/run-latest.json";
    assert_eq!(extract_network_id(other, "DeployProtocol.s.sol"), "");
}

#[test]
fn network_id_runs_to_the_end_without_slash() {
    assert_eq!(extract_network_id("broadcast/S/42161", "S"), "42161");
    assert_eq!(extract_network_id("broadcast/S/", "S"), "");
}

#[test]
fn network_id_comes_from_the_first_marker() {
    let output = "broadcast/S/1/a.json and broadcast/S/10/b.json";
    assert_eq!(extract_network_id(output, "S"), "1");
}

#[test]
fn network_id_stops_at_the_next_marker() {
    assert_eq!(extract_network_id("broadcast/S/broadcast/S/1", "S"), "");
    assert_eq!(extract_network_id("broadcast/S/77broadcast/S/1", "S"), "77");
}

#[test]
fn network_id_agrees_with_split() {
    let outputs = [
        "x broadcast/S/5/run",
        "broadcast/S/broadcast/S/1",
        "broadcast/S/12",
        "broadcast/T/12/",
        "broadcast/S//x",
        "abroadcast/S/9broadcast/S/1/",
    ];
    for output in outputs {
        let expected =
            output.split("broadcast/S/").nth(1).and_then(|s| s.split('/').next()).unwrap_or("");
        assert_eq!(extract_network_id(output, "S"), expected);
    }
}

#[test]
fn address_follows_its_label() {
    let output = "lockupLinear: contract 0xABCDEF0123456789abcdef0123456789ABCDEF01\nnext";
    assert_eq!(
        extract_address(output, "lockupLinear"),
        Some("0xABCDEF0123456789abcdef0123456789ABCDEF01".to_string())
    );
}

#[test]
fn missing_label_gives_no_address() {
    let output = "lockupLinear: contract 0xABCDEF0123456789abcdef0123456789ABCDEF01\n";
    assert_eq!(extract_address(output, "lockupDynamic"), None);
    assert_eq!(extract_address("", "lockupLinear"), None);
}

#[test]
fn label_without_token_gives_no_address() {
    assert_eq!(extract_address("lockupLinear: contract ", "lockupLinear"), None);
    assert_eq!(extract_address("lockupLinear: contract \n0x01", "lockupLinear"), None);
    assert_eq!(extract_address("lockupLinear: contract  0x01", "lockupLinear"), None);
}

#[test]
fn address_ends_at_a_blank_or_the_end() {
    assert_eq!(extract_address("a: contract 0x01", "a"), Some("0x01".to_string()));
    assert_eq!(extract_address("a: contract 0x01 rest", "a"), Some("0x01".to_string()));
    assert_eq!(extract_address("a: contract 0x01\trest", "a"), Some("0x01".to_string()));
    assert_eq!(extract_address("a: contract 0x01\r\nrest", "a"), Some("0x01".to_string()));
}

#[test]
fn extract_keeps_only_reported_labels() {
    let output = "broadcast/S/1/run\nb: contract 0x02\na: contract 0x01 ";
    let labels = vec!["a".to_string(), "missing".to_string(), "b".to_string()];
    let facts = extract(output, "S", &labels);
    assert_eq!(facts.network_id, "1");
    assert_eq!(
        facts.addresses,
        vec![
            ContractAddress { label: "a".to_string(), address: "0x01".to_string() },
            ContractAddress { label: "b".to_string(), address: "0x02".to_string() },
        ]
    );
}

#[test]
fn extract_of_silent_output_is_empty() {
    let facts = extract("Error: nothing deployed", "S", &vec!["a".to_string()]);
    assert_eq!(facts.network_id, "");
    assert!(facts.addresses.is_empty());
}
