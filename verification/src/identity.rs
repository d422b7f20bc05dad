//! The ordered fallback chain that picks the process identity source.
//!
//! First success wins: inline key material in the environment value; else
//! that value is a key file path; else the configured path; else an
//! ephemeral key is generated. The ordering is a fixed contract. Reading
//! the environment, reading files and building the key happen outside this
//! crate; what is decided here is only which source is used.

use vstd::prelude::*;

verus! {

/// What `serde_json` parses a string to as a byte array: a function of the
/// input text alone.
pub uninterp spec fn json_byte_array_of(s: Seq<char>) -> Option<Seq<u8>>;

/// Relies on serde_json::from_str::<Vec<u8>>: deterministic in the input
/// text; a JSON array of numbers in byte range parses to those bytes,
/// anything else is an error.
#[verifier::external_body]
fn parse_json_byte_array(s: &str) -> (r: Option<Vec<u8>>)
    ensures
        r is Some <==> json_byte_array_of(s@) is Some,
        r is Some ==> (r->Some_0)@ == json_byte_array_of(s@)->Some_0,
{
    match serde_json::from_str::<Vec<u8>>(s) {
        Ok(bytes) => Some(bytes),
        Err(_) => None,
    }
}

/// Where the process identity key comes from.
#[derive(Debug)]
pub enum IdentitySource {
    /// Key bytes given inline in the environment value.
    InlineBytes(Vec<u8>),
    /// Path of a key file, taken from the environment value.
    EnvKeyFile(String),
    /// Path of a key file, taken from configuration.
    ConfiguredKeyFile(String),
    /// Nothing was given: generate an ephemeral key.
    Ephemeral,
}

/// Picks the identity source, trying in order: inline bytes from the
/// environment value, that value as a file path, the configured path, an
/// ephemeral key.
pub fn resolve_identity_source(env_identity: Option<String>, configured_path: &String) -> (r:
    IdentitySource)
    ensures
        match env_identity {
            Some(v) => match json_byte_array_of(v@) {
                Some(bytes) => r matches IdentitySource::InlineBytes(b) && b@ == bytes,
                None => r == IdentitySource::EnvKeyFile(v),
            },
            None => if configured_path@.len() == 0 {
                r == IdentitySource::Ephemeral
            } else {
                r == IdentitySource::ConfiguredKeyFile(*configured_path)
            },
        },
{
    match env_identity {
        Some(v) => match parse_json_byte_array(v.as_str()) {
            Some(bytes) => IdentitySource::InlineBytes(bytes),
            None => IdentitySource::EnvKeyFile(v),
        },
        None => {
            if configured_path.as_str().is_empty() {
                IdentitySource::Ephemeral
            } else {
                IdentitySource::ConfiguredKeyFile(configured_path.clone())
            }
        },
    }
}

} // verus!
