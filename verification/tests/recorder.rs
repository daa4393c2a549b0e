use deploy_multi_chain::files::FsStep;
use deploy_multi_chain::interpreter::ContractAddress;
use deploy_multi_chain::recorder::{
    deployment_path_at, get_deployment_path, plan_log_entry, plan_log_entry_now,
    render_addresses, type_of_deployment,
};

fn entry(label: &str, address: &str) -> ContractAddress {
    ContractAddress { label: label.to_string(), address: address.to_string() }
}

#[test]
fn log_path_follows_the_script_variant() {
    assert_eq!(
        get_deployment_path(true, false),
        Some("../deployments/deterministic.md".to_string())
    );
    assert_eq!(
        get_deployment_path(false, false),
        Some("../deployments/non_deterministic.md".to_string())
    );
}

#[test]
fn rotated_path_carries_the_timestamp() {
    assert_eq!(
        deployment_path_at(true, Some(1700000000)),
        "../deployments/1700000000_deterministic.md"
    );
    assert_eq!(deployment_path_at(false, Some(0)), "../deployments/0_non_deterministic.md");
    assert_eq!(deployment_path_at(false, None), "../deployments/non_deterministic.md");
}

#[test]
fn rotated_path_now_is_a_timestamped_name() {
    let path = get_deployment_path(false, true).unwrap();
    let name = path.strip_prefix("../deployments/").unwrap();
    let stamp = name.strip_suffix("_non_deterministic.md").unwrap();
    assert!(!stamp.is_empty());
    assert!(stamp.chars().all(|c| c.is_ascii_digit()));
    assert_eq!(deployment_path_at(false, Some(stamp.parse().unwrap())), path);
}

#[test]
fn opening_line_tells_the_kind_of_run() {
    assert_eq!(type_of_deployment(true), " # This deployment is broadcasted\n\n");
    assert_eq!(type_of_deployment(false), " # This deployment is a simulation\n\n");
}

#[test]
fn existing_log_is_set_aside_before_the_new_line() {
    let steps = plan_log_entry(true, true, true, 1700000000);
    assert_eq!(
        steps,
        vec![
            FsStep::Rename {
                from: "../deployments/deterministic.md".to_string(),
                to: "../deployments/1700000000_deterministic.md".to_string(),
            },
            FsStep::Append {
                path: "../deployments/deterministic.md".to_string(),
                text: " # This deployment is broadcasted\n\n".to_string(),
            },
        ]
    );
}

#[test]
fn first_log_creates_its_directory() {
    let expected = vec![
        FsStep::CreateDirAll { path: "../deployments".to_string() },
        FsStep::Append {
            path: "../deployments/non_deterministic.md".to_string(),
            text: " # This deployment is a simulation\n\n".to_string(),
        },
    ];
    assert_eq!(plan_log_entry(false, false, false, 5), expected);
    assert_eq!(plan_log_entry_now(false, false, false), Some(expected));
}

#[test]
fn log_entry_now_sets_an_existing_log_aside() {
    let steps = plan_log_entry_now(true, false, true).unwrap();
    assert_eq!(steps.len(), 2);
    match &steps[0] {
        FsStep::Rename { from, to } => {
            assert_eq!(from, "../deployments/deterministic.md");
            assert_ne!(to, from);
            assert!(to.starts_with("../deployments/"));
            assert!(to.ends_with("_deterministic.md"));
        }
        other => panic!("expected a rename, got {:?}", other),
    }
    assert_eq!(
        steps[1],
        FsStep::Append {
            path: "../deployments/deterministic.md".to_string(),
            text: " # This deployment is a simulation\n\n".to_string(),
        }
    );
}

#[test]
fn addresses_are_listed_under_their_headings() {
    let core = vec![entry("lockupDynamic", "0x01"), entry("lockupLinear", "0x02")];
    let periphery = vec![entry("batch", "0x03")];
    assert_eq!(
        render_addresses(&core, &periphery),
        "## Core\n\nlockupDynamic: 0x01\nlockupLinear: 0x02\n\n## Periphery\n\nbatch: 0x03\n"
    );
}

#[test]
fn empty_listing_keeps_the_headings() {
    assert_eq!(render_addresses(&Vec::new(), &Vec::new()), "## Core\n\n\n## Periphery\n\n");
}
