use vault_unseal::conf::{
    Bitwarden, Error, ExternalBitwarden, ExternalConfig, ExternalLog, InternalConfig, Log,
    LogLevel, VaultNode,
};

fn node(s: &str) -> VaultNode {
    VaultNode { host: url::Url::parse(s).unwrap() }
}

fn full_config() -> ExternalConfig {
    ExternalConfig {
        vault_nodes: Some(vec![node("https://one.example:8200"), node("https://two.example:8200")]),
        bitwarden: ExternalBitwarden {
            bw_host: Some(url::Url::parse("https://vault.bitwarden.com").unwrap()),
            bw_token: Some("SECRET-REDACTED".to_string()),
            bw_secret_ids: Some(vec![uuid::Uuid::nil()]),
        },
        check_interval: Some(30),
        log: ExternalLog { level: Some(LogLevel::Debug), json: Some(true) },
    }
}

#[test]
fn a_complete_config_is_passed_through_field_for_field() {
    let cfg = InternalConfig::try_from(full_config()).unwrap();
    assert_eq!(cfg.vault_nodes.len(), 2);
    assert_eq!(cfg.vault_nodes[0].host.as_str(), "https://one.example:8200/");
    assert_eq!(cfg.bitwarden.host.as_str(), "https://vault.bitwarden.com/");
    assert_eq!(cfg.bitwarden.token, "SECRET-REDACTED");
    assert_eq!(cfg.bitwarden.secret_ids, vec![uuid::Uuid::nil()]);
    assert_eq!(cfg.check_interval, 30);
    assert_eq!(cfg.log.level, LogLevel::Debug);
    assert!(cfg.log.json);
}

#[test]
fn missing_node_list_is_rejected() {
    let mut cfg = full_config();
    cfg.vault_nodes = None;
    assert_eq!(InternalConfig::try_from(cfg).unwrap_err(), Error::InvalidVaultNodeUrl);
}

#[test]
fn empty_node_list_is_rejected() {
    let mut cfg = full_config();
    cfg.vault_nodes = Some(vec![]);
    assert_eq!(InternalConfig::try_from(cfg).unwrap_err(), Error::InvalidVaultNodeUrl);
}

#[test]
fn missing_provider_token_is_rejected() {
    let mut cfg = full_config();
    cfg.bitwarden.bw_token = None;
    assert_eq!(InternalConfig::try_from(cfg).unwrap_err(), Error::MissingBitwardenConfig);
}

#[test]
fn empty_secret_id_list_is_rejected() {
    let mut cfg = full_config();
    cfg.bitwarden.bw_secret_ids = Some(vec![]);
    assert_eq!(InternalConfig::try_from(cfg).unwrap_err(), Error::MissingBitwardenConfig);
}

#[test]
fn missing_secret_ids_are_rejected() {
    let mut cfg = full_config();
    cfg.bitwarden.bw_secret_ids = None;
    assert_eq!(InternalConfig::try_from(cfg).unwrap_err(), Error::MissingBitwardenConfig);
}

#[test]
fn defaults_point_at_the_cloud_provider_every_ten_seconds() {
    let d = ExternalConfig::default();
    assert!(d.vault_nodes.is_none());
    assert_eq!(d.bitwarden.bw_host.unwrap().as_str(), "https://vault.bitwarden.com/");
    assert!(d.bitwarden.bw_token.is_none());
    assert!(d.bitwarden.bw_secret_ids.is_none());
    assert_eq!(d.check_interval, Some(10));
    assert_eq!(d.log.level, Some(LogLevel::Info));
    assert_eq!(d.log.json, Some(false));
}

#[test]
fn node_addresses_parse_like_urls() {
    let n = VaultNode::from_str("https://127.0.0.1:8200").unwrap();
    assert_eq!(n.host.as_str(), "https://127.0.0.1:8200/");
    assert_eq!(VaultNode::from_str("not a url").unwrap_err(), Error::InvalidVaultNodeUrl);
    assert_eq!(VaultNode::from_str("").unwrap_err(), Error::InvalidVaultNodeUrl);
}

#[test]
fn validated_sections_keep_their_values() {
    let cfg = InternalConfig::try_from(full_config()).unwrap();
    let Bitwarden { host, token, secret_ids } = cfg.bitwarden;
    assert_eq!(host.as_str(), "https://vault.bitwarden.com/");
    assert!(!token.is_empty());
    assert_eq!(secret_ids.len(), 1);
    let Log { level, json } = cfg.log;
    assert_eq!(level, LogLevel::Debug);
    assert!(json);
}
