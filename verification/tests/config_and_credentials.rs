//! Configuration resolution and credential parsing.

use near_greeting::config::{Network, NetworkConfig, resolve_network_config};
use near_greeting::credentials::{
    NearCredential, credentials_for_network, parse_credential_file,
};
use near_greeting::errors::PipelineError;

const DOC: &str = "[mainnet]\nrpc_url = \"https://rpc.mainnet.near.org\"\ncontract_id = \"hello.sleet.near\"\n\n[testnet]\nrpc_url = \"https://rpc.testnet.near.org\"\ncontract_id = \"hello.sleet.testnet\"\n";

#[test]
fn primary_network_resolves_to_its_section() {
    let cfg = resolve_network_config(DOC, &Network::Primary).unwrap();
    assert_eq!(cfg.rpc_url, "https://rpc.mainnet.near.org");
    assert_eq!(cfg.contract_id, "hello.sleet.near");
}

#[test]
fn secondary_network_resolves_to_its_section() {
    let cfg = resolve_network_config(DOC, &Network::Secondary).unwrap();
    assert_eq!(cfg.rpc_url, "https://rpc.testnet.near.org");
    assert_eq!(cfg.contract_id, "hello.sleet.testnet");
}

#[test]
fn missing_section_is_a_config_error() {
    let doc = "[mainnet]\nrpc_url = \"E\"\ncontract_id = \"hello.near\"\n";
    let err = resolve_network_config(doc, &Network::Secondary).unwrap_err();
    assert!(matches!(err, PipelineError::ConfigError { .. }));
}

#[test]
fn missing_key_is_a_config_error() {
    let doc = "[mainnet]\nrpc_url = \"E\"\n";
    let err = resolve_network_config(doc, &Network::Primary).unwrap_err();
    assert!(matches!(err, PipelineError::ConfigError { .. }));
}

#[test]
fn malformed_document_is_a_config_error() {
    let err = resolve_network_config("mainnet = [unclosed", &Network::Primary).unwrap_err();
    assert!(matches!(err, PipelineError::ConfigError { .. }));
}

#[test]
fn non_string_value_is_a_config_error() {
    let doc = "[mainnet]\nrpc_url = 7\ncontract_id = \"hello.near\"\n";
    let err = resolve_network_config(doc, &Network::Primary).unwrap_err();
    assert!(matches!(err, PipelineError::ConfigError { .. }));
}

#[test]
fn credential_file_with_both_keys_parses() {
    let content = "{\"account_id\":\"ignored\",\"public_key\":\"ed25519:AAA\",\"private_key\":\"ed25519:BBB\"}";
    let cred =
        parse_credential_file(content, "alice.near".to_string(), "mainnet".to_string()).unwrap();
    assert_eq!(cred.account_id, "alice.near");
    assert_eq!(cred.public_key, "ed25519:AAA");
    assert_eq!(cred.network, "mainnet");
    assert_eq!(cred.private_key.as_deref(), Some("ed25519:BBB"));
}

#[test]
fn credential_file_without_private_key_parses_without_one() {
    let content = "{\"public_key\":\"ed25519:AAA\"}";
    let cred =
        parse_credential_file(content, "alice.near".to_string(), "testnet".to_string()).unwrap();
    assert_eq!(cred.public_key, "ed25519:AAA");
    assert!(cred.private_key.is_none());
}

#[test]
fn credential_file_without_public_key_is_refused() {
    let content = "{\"private_key\":\"ed25519:BBB\"}";
    assert!(parse_credential_file(content, "a.near".to_string(), "mainnet".to_string()).is_none());
}

#[test]
fn credential_file_that_is_not_json_is_refused() {
    assert!(parse_credential_file("not json", "a.near".to_string(), "mainnet".to_string())
        .is_none());
}

fn cred(account: &str, network: &str) -> NearCredential {
    NearCredential {
        account_id: account.to_string(),
        public_key: "ed25519:AAA".to_string(),
        network: network.to_string(),
        private_key: None,
    }
}

#[test]
fn network_filter_keeps_matching_credentials_in_order() {
    let creds = vec![
        cred("a.near", "mainnet"),
        cred("b.testnet", "testnet"),
        cred("c.near", "mainnet"),
    ];
    let mainnet = credentials_for_network(&creds, "mainnet");
    assert_eq!(mainnet.len(), 2);
    assert_eq!(mainnet[0].account_id, "a.near");
    assert_eq!(mainnet[1].account_id, "c.near");
    let testnet = credentials_for_network(&creds, "testnet");
    assert_eq!(testnet.len(), 1);
    assert_eq!(testnet[0].account_id, "b.testnet");
    assert!(credentials_for_network(&creds, "other").is_empty());
}

#[test]
fn section_names_are_the_network_labels() {
    assert_eq!(Network::Primary.section_name(), "mainnet");
    assert_eq!(Network::Secondary.section_name(), "testnet");
}

#[test]
fn resolution_is_pure() {
    let a = resolve_network_config(DOC, &Network::Primary).unwrap();
    let b = resolve_network_config(DOC, &Network::Primary).unwrap();
    assert_eq!(a.rpc_url, b.rpc_url);
    assert_eq!(a.contract_id, b.contract_id);
}

#[test]
fn config_fields_round_trip() {
    let cfg = NetworkConfig { rpc_url: "E".to_string(), contract_id: "p.near".to_string() };
    assert_eq!(cfg.rpc_url, "E");
    assert_eq!(cfg.contract_id, "p.near");
}

#[test]
fn non_string_private_key_is_treated_as_absent() {
    let content = "{\"public_key\":\"ed25519:AAA\",\"private_key\":7}";
    let cred =
        parse_credential_file(content, "a.near".to_string(), "mainnet".to_string()).unwrap();
    assert!(cred.private_key.is_none());
}
