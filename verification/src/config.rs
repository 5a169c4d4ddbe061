//! Resolution of the network configuration from the embedded document.
//!
//! The configuration source is a TOML document with one section per
//! network, each holding the node's RPC endpoint and the target program id.
//! Resolution is pure: the same document and selector always give the same
//! configuration, and a malformed or incomplete document is a
//! `ConfigError`, never retried.

use vstd::prelude::*;
use crate::errors::PipelineError;

verus! {

/// The network selector: the production network or the test network.
#[derive(Debug)]
pub enum Network {
    Primary,
    Secondary,
}

impl Network {
    /// The name of this network's section in the configuration document,
    /// which is also the label credential records carry.
    pub open spec fn spec_section_name(self) -> Seq<char> {
        match self {
            Network::Primary => "mainnet"@,
            Network::Secondary => "testnet"@,
        }
    }

    /// Returns `spec_section_name`.
    pub fn section_name(&self) -> (r: &'static str)
        ensures
            r@ == self.spec_section_name(),
    {
        match self {
            Network::Primary => "mainnet",
            Network::Secondary => "testnet",
        }
    }
}

/// One network's addressable identity: where to reach a node, and which
/// program the calls target. Immutable once resolved.
#[derive(Debug)]
pub struct NetworkConfig {
    pub rpc_url: String,
    pub contract_id: String,
}

/// The string under `[section] key` of the TOML document: `None` where the
/// document does not parse, the section is missing, the key is missing, or
/// the value there is not a string.
pub uninterp spec fn spec_toml_str(doc: Seq<char>, section: Seq<char>, key: Seq<char>) -> Option<
    Seq<char>,
>;

/// Relies on toml::Table::from_str, toml::Value::get and toml::Value::as_str:
/// the looked-up string is a function of the document, section and key
/// alone, present exactly when the document parses and holds a string there.
#[verifier::external_body]
fn toml_lookup_str(doc: &str, section: &str, key: &str) -> (r: Option<String>)
    ensures
        r is Some <==> spec_toml_str(doc@, section@, key@) is Some,
        r is Some ==> r.unwrap()@ == spec_toml_str(doc@, section@, key@).unwrap(),
{
    let table: toml::Table = match doc.parse() {
        Ok(t) => t,
        Err(_) => return None,
    };
    Some(table.get(section)?.get(key)?.as_str()?.to_owned())
}

/// Resolves the selected network's configuration from the document.
///
/// Returns the endpoint and program id stored under the network's section,
/// and fails with `ConfigError` exactly when either is missing.
pub fn resolve_network_config(doc: &str, network: &Network) -> (r: Result<
    NetworkConfig,
    PipelineError,
>)
    ensures
        match r {
            Ok(cfg) => {
                &&& spec_toml_str(doc@, network.spec_section_name(), "rpc_url"@) == Some(
                    cfg.rpc_url@,
                )
                &&& spec_toml_str(doc@, network.spec_section_name(), "contract_id"@) == Some(
                    cfg.contract_id@,
                )
            },
            Err(e) => {
                &&& e is ConfigError
                &&& (spec_toml_str(doc@, network.spec_section_name(), "rpc_url"@) is None
                    || spec_toml_str(doc@, network.spec_section_name(), "contract_id"@) is None)
            },
        },
{
    let section = network.section_name();
    let rpc_url = match toml_lookup_str(doc, section, "rpc_url") {
        Some(u) => u,
        None => {
            return Err(
                PipelineError::ConfigError {
                    detail: "the configuration lacks the network's rpc endpoint".to_owned(),
                },
            );
        },
    };
    let contract_id = match toml_lookup_str(doc, section, "contract_id") {
        Some(c) => c,
        None => {
            return Err(
                PipelineError::ConfigError {
                    detail: "the configuration lacks the network's program id".to_owned(),
                },
            );
        },
    };
    Ok(NetworkConfig { rpc_url, contract_id })
}

} // verus!
