//! Broker configuration: the renderer timeout and the do-not-disturb
//! override threshold, read from a TOML text. Reading the file itself is
//! the surrounding process's job; this module turns its text into a
//! `Config`, absorbing every malformed or missing field into a default.

use vstd::prelude::*;

verus! {

/// The resolved configuration.
#[derive(Clone)]
pub struct Config {
    pub timeout: u64,
    pub dnd_override: i32,
}

/// The configuration as read from the file, before defaults are filled in.
pub struct ConfigOptional {
    pub timeout: Option<u64>,
    pub dnd_override: Option<i32>,
}

#[verifier::external_type_specification]
#[verifier::external_body]
pub struct ExTomlValue(toml::Value);

/// The top-level integer fields of the TOML text `s`: `None` when `s` does
/// not parse, otherwise the map from each top-level key holding an integer
/// value to that integer. Parsing is a function of the text alone.
pub uninterp spec fn toml_integer_fields(s: Seq<char>) -> Option<Map<Seq<char>, i64>>;

/// The integer fields that a parsed TOML value holds at its top level.
pub uninterp spec fn toml_integer_entries(v: toml::Value) -> Map<Seq<char>, i64>;

/// Relies on `toml::from_str::<toml::Value>`: whether a text parses, and
/// which integer fields the parsed document holds, depend on the text
/// alone.
#[verifier::external_body]
fn parse_toml(s: &str) -> (r: Option<toml::Value>)
    ensures
        r is Some <==> toml_integer_fields(s@) is Some,
        r matches Some(v) ==> Some(toml_integer_entries(v)) == toml_integer_fields(s@),
{
    toml::from_str::<toml::Value>(s).ok()
}

/// Relies on `toml::Value::get`, which looks a key up in a TOML table (and
/// finds nothing in any other value), and `toml::Value::as_integer`, which
/// returns the payload of an integer value and nothing else.
#[verifier::external_body]
fn toml_integer_field(v: &toml::Value, key: &str) -> (r: Option<i64>)
    ensures
        toml_integer_entries(*v).contains_key(key@) ==> r == Some(
            toml_integer_entries(*v)[key@],
        ),
        !toml_integer_entries(*v).contains_key(key@) ==> r is None,
{
    match v.get(key) {
        Some(f) => f.as_integer(),
        None => None,
    }
}

/// The `timeout` field of a parsed config text: present exactly when the
/// text parses and holds a non-negative integer under `timeout`.
pub open spec fn spec_optional_timeout(fields: Option<Map<Seq<char>, i64>>) -> Option<u64> {
    match fields {
        None => None,
        Some(m) => if m.contains_key("timeout"@) && 0 <= m["timeout"@] {
            Some(m["timeout"@] as u64)
        } else {
            None
        },
    }
}

/// The `dnd_override` field of a parsed config text: present exactly when
/// the text parses and holds an integer fitting `i32` under `dnd_override`.
pub open spec fn spec_optional_dnd(fields: Option<Map<Seq<char>, i64>>) -> Option<i32> {
    match fields {
        None => None,
        Some(m) => if m.contains_key("dnd_override"@) && i32::MIN <= m["dnd_override"@]
            <= i32::MAX {
            Some(m["dnd_override"@] as i32)
        } else {
            None
        },
    }
}

/// The resolved `timeout`: the field when usable, else `3`.
pub open spec fn spec_config_timeout(fields: Option<Map<Seq<char>, i64>>) -> u64 {
    match spec_optional_timeout(fields) {
        Some(t) => t,
        None => 3u64,
    }
}

/// The resolved `dnd_override`: the field when usable, else `2`.
pub open spec fn spec_config_dnd(fields: Option<Map<Seq<char>, i64>>) -> i32 {
    match spec_optional_dnd(fields) {
        Some(d) => d,
        None => 2i32,
    }
}

impl ConfigOptional {
    /// Reads the two optional fields out of a config text.
    pub fn from_toml_str(contents: &str) -> (r: ConfigOptional)
        ensures
            r.timeout == spec_optional_timeout(toml_integer_fields(contents@)),
            r.dnd_override == spec_optional_dnd(toml_integer_fields(contents@)),
    {
        match parse_toml(contents) {
            None => ConfigOptional { timeout: None, dnd_override: None },
            Some(v) => {
                let timeout = match toml_integer_field(&v, "timeout") {
                    Some(t) => if t >= 0 {
                        Some(t as u64)
                    } else {
                        None
                    },
                    None => None,
                };
                let dnd_override = match toml_integer_field(&v, "dnd_override") {
                    Some(d) => if i32::MIN as i64 <= d && d <= i32::MAX as i64 {
                        Some(d as i32)
                    } else {
                        None
                    },
                    None => None,
                };
                ConfigOptional { timeout, dnd_override }
            },
        }
    }
}

impl Config {
    /// Fills the gaps of a partial configuration with the defaults
    /// `timeout = 3` and `dnd_override = 2`.
    pub fn from_optional(parsed: ConfigOptional) -> (r: Config)
        ensures
            r.timeout == match parsed.timeout {
                Some(t) => t,
                None => 3u64,
            },
            r.dnd_override == match parsed.dnd_override {
                Some(d) => d,
                None => 2i32,
            },
    {
        Config {
            timeout: match parsed.timeout {
                Some(t) => t,
                None => 3,
            },
            dnd_override: match parsed.dnd_override {
                Some(d) => d,
                None => 2,
            },
        }
    }
}

/// The text whose parse gives the default configuration.
pub fn default_config() -> (r: String)
    ensures
        r@ == "timeout = 3\n        dnd_override = 2"@,
{
    String::from_str("timeout = 3\n        dnd_override = 2")
}

/// Turns a config text into the configuration it denotes: each field that
/// is missing or malformed, or the whole text when it does not parse, falls
/// back to the defaults `timeout = 3`, `dnd_override = 2`.
pub fn config_from_str(contents: &str) -> (r: Config)
    ensures
        r.timeout == spec_config_timeout(toml_integer_fields(contents@)),
        r.dnd_override == spec_config_dnd(toml_integer_fields(contents@)),
{
    Config::from_optional(ConfigOptional::from_toml_str(contents))
}

} // verus!
