//! The runtime configuration, as the workers consume it.
//!
//! Configuration arrives merged from files, environment and command line; the
//! library only sees the merged [`ExternalConfig`], in which every field is
//! still optional, and narrows it to the [`InternalConfig`] the orchestrator
//! runs on: a non-empty node list, a complete secret-provider section, and a
//! poll interval. Node addresses are kept as parsed URLs and secret
//! identifiers as UUIDs; both are carried through untouched.

use vstd::prelude::*;

verus! {

/// Why a configuration was rejected.
#[derive(Clone, Copy, Debug, PartialEq, Eq, Structural)]
pub enum Error {
    /// The merged configuration sources could not be read into a configuration.
    FigmentError,
    /// A node address did not parse as a URL, or no node was given.
    InvalidVaultNodeUrl,
    /// The secret-provider section is incomplete.
    MissingBitwardenConfig,
}

/// The address type carried for nodes and the provider.
///
/// Relies on `url::Url` only as an opaque, already-validated address value.
#[verifier::external_type_specification]
#[verifier::external_body]
pub struct ExUrl(url::Url);

/// The identifier type of an escrowed secret at the provider.
///
/// Relies on `uuid::Uuid` only as an opaque identifier value.
#[verifier::external_type_specification]
#[verifier::external_body]
pub struct ExUuid(uuid::Uuid);

/// Relies on `url::Url`'s derived `Clone`: the clone is the same address,
/// field for field.
pub assume_specification[ <url::Url as Clone>::clone ](u: &url::Url) -> (r: url::Url)
    ensures
        r == *u,
;

/// Whether `url::Url::parse` accepts a string as an absolute URL.
pub uninterp spec fn url_accepts(s: Seq<char>) -> bool;

/// Relies on `url::Url::parse`: whether a string is accepted as an absolute
/// URL depends on the string alone. The parse error's detail is not kept.
#[verifier::external_body]
fn parse_url(s: &str) -> (r: Result<url::Url, ()>)
    ensures
        r is Ok <==> url_accepts(s@),
{
    match url::Url::parse(s) {
        Ok(u) => Ok(u),
        Err(_) => Err(()),
    }
}

/// Relies on `url::Url::parse` accepting the fixed address of the provider's
/// cloud endpoint, the built-in default for the secret-provider host.
#[verifier::external_body]
fn default_bitwarden_host() -> (u: url::Url) {
    url::Url::parse("https://vault.bitwarden.com").unwrap()
}

/// One secret-storage node to keep unsealed, identified by its address.
#[derive(Clone, Debug)]
pub struct VaultNode {
    /// Base address of the node's API.
    pub host: url::Url,
}

impl VaultNode {
    /// Read a node address from a string; accepted exactly when the string
    /// parses as an absolute URL.
    pub fn from_str(s: &str) -> (r: Result<VaultNode, Error>)
        ensures
            r is Ok <==> url_accepts(s@),
            r is Err ==> r == Err::<VaultNode, Error>(Error::InvalidVaultNodeUrl),
    {
        match parse_url(s) {
            Ok(host) => Ok(VaultNode { host }),
            Err(_) => Err(Error::InvalidVaultNodeUrl),
        }
    }
}

/// The secret-provider section as it arrives from the merged sources.
#[derive(Clone, Debug)]
pub struct ExternalBitwarden {
    /// Provider endpoint.
    pub bw_host: Option<url::Url>,
    /// Provider access token.
    pub bw_token: Option<String>,
    /// Identifiers of the escrowed shares.
    pub bw_secret_ids: Option<Vec<uuid::Uuid>>,
}

/// The secret-provider section once every field is present.
#[derive(Clone, Debug)]
pub struct Bitwarden {
    /// Provider endpoint.
    pub host: url::Url,
    /// Provider access token.
    pub token: String,
    /// Identifiers of the escrowed shares.
    pub secret_ids: Vec<uuid::Uuid>,
}

/// The logging section as it arrives from the merged sources.
#[derive(Clone, Debug)]
pub struct ExternalLog {
    /// Least severe level to emit.
    pub level: Option<LogLevel>,
    /// Whether to log in JSON format.
    pub json: Option<bool>,
}

/// Least severe log level to emit.
#[derive(Clone, Copy, Debug, PartialEq, Eq, Structural)]
pub enum LogLevel {
    Info,
    Warn,
    Debug,
    Error,
    Trace,
}

/// The logging section once every field is present.
#[derive(Clone, Debug)]
pub struct Log {
    /// Least severe level to emit.
    pub level: LogLevel,
    /// Whether to log in JSON format.
    pub json: bool,
}

/// The configuration as merged from defaults, files, environment and command
/// line, before validation: every field may still be missing.
#[derive(Clone, Debug)]
pub struct ExternalConfig {
    /// Addresses of the nodes to keep unsealed.
    pub vault_nodes: Option<Vec<VaultNode>>,
    /// Secret-provider section.
    pub bitwarden: ExternalBitwarden,
    /// Poll interval in seconds.
    pub check_interval: Option<u64>,
    /// Logging section.
    pub log: ExternalLog,
}

impl Default for ExternalConfig {
    /// The built-in defaults that the merge starts from: no nodes, the
    /// provider's cloud endpoint, a ten-second poll interval, plain logs at
    /// `Info`.
    fn default() -> (c: Self)
        ensures
            c.vault_nodes is None,
            c.bitwarden.bw_host is Some,
            c.bitwarden.bw_token is None,
            c.bitwarden.bw_secret_ids is None,
            c.check_interval == Some(10u64),
            c.log.level == Some(LogLevel::Info),
            c.log.json == Some(false),
    {
        ExternalConfig {
            vault_nodes: None,
            bitwarden: ExternalBitwarden {
                bw_host: Some(default_bitwarden_host()),
                bw_token: None,
                bw_secret_ids: None,
            },
            check_interval: Some(10),
            log: ExternalLog { level: Some(LogLevel::Info), json: Some(false) },
        }
    }
}

/// At least one node address was given.
pub open spec fn spec_has_nodes(c: ExternalConfig) -> bool {
    c.vault_nodes matches Some(ns) && ns.len() > 0
}

/// Every field of the secret-provider section was given, and the identifier
/// set names at least one escrowed share: an empty set could never resolve
/// to a share and is rejected up front.
pub open spec fn spec_bitwarden_complete(b: ExternalBitwarden) -> bool {
    b.bw_host is Some && b.bw_token is Some && (b.bw_secret_ids matches Some(ids) && ids.len()
        > 0)
}

/// The validated configuration the orchestrator runs on.
#[derive(Clone, Debug)]
pub struct InternalConfig {
    /// Addresses of the nodes to keep unsealed; never empty.
    pub vault_nodes: Vec<VaultNode>,
    /// Secret-provider section, complete.
    pub bitwarden: Bitwarden,
    /// Poll interval in seconds.
    pub check_interval: u64,
    /// Logging section, complete.
    pub log: Log,
}

impl InternalConfig {
    /// Validate a merged configuration: rejected without nodes, and rejected
    /// with an incomplete secret-provider section — a missing field or an
    /// empty identifier set — and otherwise passed through field for field.
    ///
    /// The merge always starts from the built-in defaults, so a provider
    /// host, a poll interval and both logging fields are present whenever
    /// validation gets this far; the preconditions record exactly that.
    pub fn try_from(config: ExternalConfig) -> (r: Result<InternalConfig, Error>)
        requires
            spec_has_nodes(config) ==> config.bitwarden.bw_host is Some && (
            config.bitwarden.bw_token is Some || config.bitwarden.bw_secret_ids is Some),
            spec_has_nodes(config) && spec_bitwarden_complete(config.bitwarden)
                ==> config.check_interval is Some && config.log.level is Some
                && config.log.json is Some,
        ensures
            r is Ok <==> spec_has_nodes(config) && spec_bitwarden_complete(config.bitwarden),
            !spec_has_nodes(config) ==> r == Err::<InternalConfig, Error>(
                Error::InvalidVaultNodeUrl,
            ),
            spec_has_nodes(config) && !spec_bitwarden_complete(config.bitwarden) ==> r == Err::<
                InternalConfig,
                Error,
            >(Error::MissingBitwardenConfig),
            r matches Ok(c) ==> {
                &&& c.vault_nodes@ == config.vault_nodes.unwrap()@
                &&& c.bitwarden.host == config.bitwarden.bw_host.unwrap()
                &&& c.bitwarden.token@ == config.bitwarden.bw_token.unwrap()@
                &&& c.bitwarden.secret_ids@ == config.bitwarden.bw_secret_ids.unwrap()@
                &&& c.check_interval == config.check_interval.unwrap()
                &&& c.log.level == config.log.level.unwrap()
                &&& c.log.json == config.log.json.unwrap()
            },
    {
        let has_nodes = match &config.vault_nodes {
            Some(ns) => ns.len() > 0,
            None => false,
        };
        if !has_nodes {
            return Err(Error::InvalidVaultNodeUrl);
        }
        let ExternalConfig { vault_nodes, bitwarden, check_interval, log } = config;
        let bw = match (bitwarden.bw_host, bitwarden.bw_token, bitwarden.bw_secret_ids) {
            (Some(host), Some(token), Some(secret_ids)) => {
                if secret_ids.len() == 0 {
                    return Err(Error::MissingBitwardenConfig);
                }
                Bitwarden { host, token, secret_ids }
            },
            (Some(_), _, Some(_)) => {
                return Err(Error::MissingBitwardenConfig);
            },
            (Some(_), Some(_), None) => {
                return Err(Error::MissingBitwardenConfig);
            },
            _ => {
                return unreached();
            },
        };
        Ok(
            InternalConfig {
                vault_nodes: vault_nodes.unwrap(),
                bitwarden: bw,
                check_interval: check_interval.unwrap(),
                log: Log { level: log.level.unwrap(), json: log.json.unwrap() },
            },
        )
    }
}

} // verus!
