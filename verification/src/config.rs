//! The filter configuration and how it is resolved from raw bytes.
//!
//! A configuration is resolved once, before any request is served. Raw bytes
//! must be a JSON object with the members `header_name` (a string),
//! `header_value` (a string) and `upstream_timeout_ms` (an unsigned integer);
//! other members are ignored. Without bytes the defaults apply.

use vstd::prelude::*;
use vstd::string::*;
use crate::json::{
    as_text, as_unsigned, error_text, json_document, json_member, json_text, json_unsigned, member,
    parse_document,
};

verus! {

/// What a configuration holds, as mathematical values.
pub struct FilterConfigView {
    pub header_name: Seq<char>,
    pub header_value: Seq<char>,
    pub upstream_timeout_ms: u64,
}

/// The settings of the filter: the header that it adds to every request, and
/// the upstream timeout that it asks for. A value never changes once made.
#[derive(Debug, PartialEq, Eq)]
pub struct FilterConfig {
    header_name: String,
    header_value: String,
    upstream_timeout_ms: u64,
}

/// A member of the configuration object.
#[derive(Debug, Clone, Copy, PartialEq, Eq, Structural)]
pub enum ConfigField {
    HeaderName,
    HeaderValue,
    UpstreamTimeoutMs,
}

/// Why raw bytes give no configuration, without the codec's wording.
pub enum ConfigFailure {
    /// The bytes are not a JSON document.
    Malformed,
    /// The document has no such member, or is no object at all.
    MissingField(ConfigField),
    /// The member is there, but is not of the type that the schema asks for.
    InvalidField(ConfigField),
}

/// Why raw bytes give no configuration.
#[derive(Debug, PartialEq, Eq)]
pub enum ConfigError {
    /// The bytes are not a JSON document; `reason` is the codec's account.
    Malformed { reason: String },
    /// The document has no such member, or is no object at all.
    MissingField { field: ConfigField },
    /// The member is there, but is not of the type that the schema asks for.
    InvalidField { field: ConfigField },
}

/// What a document holds under one key, read at one type.
#[derive(Debug, PartialEq, Eq)]
pub enum Lookup<T> {
    /// No member under the key.
    Missing,
    /// A member of another type.
    Invalid,
    /// A member of the type asked for.
    Found(T),
}

impl View for FilterConfig {
    type V = FilterConfigView;

    closed spec fn view(&self) -> FilterConfigView {
        FilterConfigView {
            header_name: self.header_name@,
            header_value: self.header_value@,
            upstream_timeout_ms: self.upstream_timeout_ms,
        }
    }
}

impl View for ConfigError {
    type V = ConfigFailure;

    open spec fn view(&self) -> ConfigFailure {
        match *self {
            ConfigError::Malformed { .. } => ConfigFailure::Malformed,
            ConfigError::MissingField { field } => ConfigFailure::MissingField(field),
            ConfigError::InvalidField { field } => ConfigFailure::InvalidField(field),
        }
    }
}

impl ConfigField {
    /// The key of the member in the configuration object.
    pub open spec fn key(self) -> Seq<char> {
        match self {
            ConfigField::HeaderName => "header_name"@,
            ConfigField::HeaderValue => "header_value"@,
            ConfigField::UpstreamTimeoutMs => "upstream_timeout_ms"@,
        }
    }

    /// The key of the member in the configuration object.
    pub fn name(self) -> (key: &'static str)
        ensures
            key@ == self.key(),
    {
        match self {
            ConfigField::HeaderName => "header_name",
            ConfigField::HeaderValue => "header_value",
            ConfigField::UpstreamTimeoutMs => "upstream_timeout_ms",
        }
    }
}

/// The account of a failure, for a human reader.
pub open spec fn failure_text(error: ConfigError) -> Seq<char> {
    match error {
        ConfigError::Malformed { reason } => reason@,
        ConfigError::MissingField { field } => "missing field "@ + field.key(),
        ConfigError::InvalidField { field } => "invalid type of field "@ + field.key(),
    }
}

impl ConfigError {
    /// The account of the failure, for a human reader: the codec's own
    /// words where the bytes are no JSON document, and else the member that
    /// is missing or mistyped.
    pub fn message(&self) -> (text: String)
        ensures
            text@ == failure_text(*self),
    {
        match self {
            ConfigError::Malformed { reason } => reason.clone(),
            ConfigError::MissingField { field } => {
                let mut text = String::from_str("missing field ");
                text.append(field.name());
                text
            },
            ConfigError::InvalidField { field } => {
                let mut text = String::from_str("invalid type of field ");
                text.append(field.name());
                text
            },
        }
    }
}

/// The configuration that applies where none is supplied.
pub open spec fn default_config() -> FilterConfigView {
    FilterConfigView {
        header_name: "x-wasm-filter"@,
        header_value: "envoy-rust"@,
        upstream_timeout_ms: 5000,
    }
}

/// The text of a lookup's result.
pub open spec fn text_of(found: Lookup<String>) -> Lookup<Seq<char>> {
    match found {
        Lookup::Missing => Lookup::Missing,
        Lookup::Invalid => Lookup::Invalid,
        Lookup::Found(text) => Lookup::Found(text@),
    }
}

/// What `doc` holds under `key`, read as a string.
pub open spec fn text_member(doc: serde_json::Value, key: Seq<char>) -> Lookup<Seq<char>> {
    match json_member(doc, key) {
        None => Lookup::Missing,
        Some(value) => match json_text(value) {
            None => Lookup::Invalid,
            Some(text) => Lookup::Found(text),
        },
    }
}

/// What `doc` holds under `key`, read as an unsigned integer.
pub open spec fn unsigned_member(doc: serde_json::Value, key: Seq<char>) -> Lookup<u64> {
    match json_member(doc, key) {
        None => Lookup::Missing,
        Some(value) => match json_unsigned(value) {
            None => Lookup::Invalid,
            Some(number) => Lookup::Found(number),
        },
    }
}

/// The configuration that three members make, or the first of them, in the
/// order of the schema, that is missing or of the wrong type.
pub open spec fn assembled(
    header_name: Lookup<Seq<char>>,
    header_value: Lookup<Seq<char>>,
    upstream_timeout_ms: Lookup<u64>,
) -> Result<FilterConfigView, ConfigFailure> {
    match header_name {
        Lookup::Missing => Err(ConfigFailure::MissingField(ConfigField::HeaderName)),
        Lookup::Invalid => Err(ConfigFailure::InvalidField(ConfigField::HeaderName)),
        Lookup::Found(name) => match header_value {
            Lookup::Missing => Err(ConfigFailure::MissingField(ConfigField::HeaderValue)),
            Lookup::Invalid => Err(ConfigFailure::InvalidField(ConfigField::HeaderValue)),
            Lookup::Found(value) => match upstream_timeout_ms {
                Lookup::Missing => Err(
                    ConfigFailure::MissingField(ConfigField::UpstreamTimeoutMs),
                ),
                Lookup::Invalid => Err(
                    ConfigFailure::InvalidField(ConfigField::UpstreamTimeoutMs),
                ),
                Lookup::Found(timeout) => Ok(
                    FilterConfigView {
                        header_name: name,
                        header_value: value,
                        upstream_timeout_ms: timeout,
                    },
                ),
            },
        },
    }
}

/// The configuration that `bytes` decode to.
pub open spec fn decoded(bytes: Seq<u8>) -> Result<FilterConfigView, ConfigFailure> {
    match json_document(bytes) {
        None => Err(ConfigFailure::Malformed),
        Some(doc) => assembled(
            text_member(doc, ConfigField::HeaderName.key()),
            text_member(doc, ConfigField::HeaderValue.key()),
            unsigned_member(doc, ConfigField::UpstreamTimeoutMs.key()),
        ),
    }
}

/// The configuration that the filter runs with, given what was supplied.
pub open spec fn resolved(raw: Option<Seq<u8>>) -> Result<FilterConfigView, ConfigFailure> {
    match raw {
        None => Ok(default_config()),
        Some(bytes) => decoded(bytes),
    }
}

/// Whether a document holds the three members of the schema, each at its
/// type.
pub open spec fn matches_schema(doc: serde_json::Value) -> bool {
    &&& text_member(doc, ConfigField::HeaderName.key()) is Found
    &&& text_member(doc, ConfigField::HeaderValue.key()) is Found
    &&& unsigned_member(doc, ConfigField::UpstreamTimeoutMs.key()) is Found
}

/// Bytes that are a document of the schema decode to a configuration, and
/// its settings are the values of the three members.
pub proof fn lemma_schema_decodes(bytes: Seq<u8>, doc: serde_json::Value)
    requires
        json_document(bytes) == Some(doc),
        matches_schema(doc),
    ensures
        decoded(bytes) is Ok,
        text_member(doc, ConfigField::HeaderName.key()) == Lookup::Found(
            decoded(bytes)->Ok_0.header_name,
        ),
        text_member(doc, ConfigField::HeaderValue.key()) == Lookup::Found(
            decoded(bytes)->Ok_0.header_value,
        ),
        unsigned_member(doc, ConfigField::UpstreamTimeoutMs.key()) == Lookup::Found(
            decoded(bytes)->Ok_0.upstream_timeout_ms,
        ),
{
}

/// Bytes decode to a configuration only where they are a document of the
/// schema: all others fail, and give no configuration.
pub proof fn lemma_only_schema_decodes(bytes: Seq<u8>)
    ensures
        decoded(bytes) is Ok <==> (json_document(bytes) matches Some(doc) && matches_schema(doc)),
{
}

/// Whether an outcome is the expected one: the same configuration, or a
/// failure of the same kind.
pub open spec fn agrees(
    outcome: Result<FilterConfig, ConfigError>,
    expected: Result<FilterConfigView, ConfigFailure>,
) -> bool {
    match outcome {
        Ok(config) => expected == Ok::<FilterConfigView, ConfigFailure>(config@),
        Err(error) => expected == Err::<FilterConfigView, ConfigFailure>(error@),
    }
}

impl FilterConfig {
    /// A configuration with the given settings.
    pub fn new(header_name: String, header_value: String, upstream_timeout_ms: u64) -> (config:
        FilterConfig)
        ensures
            config@ == (FilterConfigView {
                header_name: header_name@,
                header_value: header_value@,
                upstream_timeout_ms,
            }),
    {
        FilterConfig { header_name, header_value, upstream_timeout_ms }
    }

    /// The name of the header that the filter adds to every request.
    pub fn header_name(&self) -> (name: &str)
        ensures
            name@ == self@.header_name,
    {
        self.header_name.as_str()
    }

    /// The value of the header that the filter adds to every request.
    pub fn header_value(&self) -> (value: &str)
        ensures
            value@ == self@.header_value,
    {
        self.header_value.as_str()
    }

    /// The upstream timeout that the filter asks for, in milliseconds.
    pub fn upstream_timeout_ms(&self) -> (timeout: u64)
        ensures
            timeout == self@.upstream_timeout_ms,
    {
        self.upstream_timeout_ms
    }
}

impl Clone for FilterConfig {
    fn clone(&self) -> (copy: FilterConfig)
        ensures
            copy == *self,
    {
        FilterConfig {
            header_name: self.header_name.clone(),
            header_value: self.header_value.clone(),
            upstream_timeout_ms: self.upstream_timeout_ms,
        }
    }
}

impl Default for FilterConfig {
    fn default() -> (config: FilterConfig)
        ensures
            config@ == default_config(),
    {
        FilterConfig {
            header_name: String::from_str("x-wasm-filter"),
            header_value: String::from_str("envoy-rust"),
            upstream_timeout_ms: 5000,
        }
    }
}

/// Reads the member under `key` as a string.
fn lookup_text(doc: &serde_json::Value, key: &str) -> (found: Lookup<String>)
    ensures
        text_of(found) == text_member(*doc, key@),
{
    match member(doc, key) {
        None => Lookup::Missing,
        Some(value) => match as_text(value) {
            None => Lookup::Invalid,
            Some(text) => Lookup::Found(String::from_str(text)),
        },
    }
}

/// Reads the member under `key` as an unsigned integer.
fn lookup_unsigned(doc: &serde_json::Value, key: &str) -> (found: Lookup<u64>)
    ensures
        found == unsigned_member(*doc, key@),
{
    match member(doc, key) {
        None => Lookup::Missing,
        Some(value) => match as_unsigned(value) {
            None => Lookup::Invalid,
            Some(number) => Lookup::Found(number),
        },
    }
}

/// Makes a configuration of the three members of a document. All three are
/// required: the first that is missing or of the wrong type, in the order of
/// the schema, is reported.
pub fn assemble(
    header_name: Lookup<String>,
    header_value: Lookup<String>,
    upstream_timeout_ms: Lookup<u64>,
) -> (outcome: Result<FilterConfig, ConfigError>)
    ensures
        agrees(outcome, assembled(text_of(header_name), text_of(header_value), upstream_timeout_ms)),
{
    let name = match header_name {
        Lookup::Missing => {
            return Err(ConfigError::MissingField { field: ConfigField::HeaderName });
        },
        Lookup::Invalid => {
            return Err(ConfigError::InvalidField { field: ConfigField::HeaderName });
        },
        Lookup::Found(name) => name,
    };
    let value = match header_value {
        Lookup::Missing => {
            return Err(ConfigError::MissingField { field: ConfigField::HeaderValue });
        },
        Lookup::Invalid => {
            return Err(ConfigError::InvalidField { field: ConfigField::HeaderValue });
        },
        Lookup::Found(value) => value,
    };
    let timeout: u64 = match upstream_timeout_ms {
        Lookup::Missing => {
            return Err(ConfigError::MissingField { field: ConfigField::UpstreamTimeoutMs });
        },
        Lookup::Invalid => {
            return Err(ConfigError::InvalidField { field: ConfigField::UpstreamTimeoutMs });
        },
        Lookup::Found(timeout) => timeout,
    };
    Ok(FilterConfig::new(name, value, timeout))
}

/// Decodes a configuration from the bytes of a JSON document.
///
/// Succeeds exactly where the bytes are a JSON object that holds the three
/// members at their types, and then returns their values. Fails with
/// `Malformed` where the bytes are no JSON document, and else with the first
/// member, in the order of the schema, that is missing or mistyped.
pub fn decode(bytes: &[u8]) -> (outcome: Result<FilterConfig, ConfigError>)
    ensures
        agrees(outcome, decoded(bytes@)),
{
    match parse_document(bytes) {
        Err(error) => Err(ConfigError::Malformed { reason: error_text(&error) }),
        Ok(doc) => {
            let header_name = lookup_text(&doc, ConfigField::HeaderName.name());
            let header_value = lookup_text(&doc, ConfigField::HeaderValue.name());
            let upstream_timeout_ms = lookup_unsigned(&doc, ConfigField::UpstreamTimeoutMs.name());
            assemble(header_name, header_value, upstream_timeout_ms)
        },
    }
}

/// Resolves the configuration that the filter runs with.
///
/// Without bytes the result is the default configuration, and never a
/// failure. With bytes it is what they decode to: a failure leaves the
/// filter without a configuration.
pub fn configure(raw: Option<&[u8]>) -> (outcome: Result<FilterConfig, ConfigError>)
    ensures
        agrees(
            outcome,
            resolved(
                match raw {
                    Some(bytes) => Some(bytes@),
                    None => None,
                },
            ),
        ),
        raw is None ==> (outcome matches Ok(config) && config@ == default_config()),
{
    match raw {
        None => Ok(FilterConfig::default()),
        Some(bytes) => decode(bytes),
    }
}

} // verus!
