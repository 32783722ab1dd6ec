//! The metadata that the filter attaches to a response, and its encoding.

use vstd::prelude::*;
use vstd::string::*;
use crate::decimal::{decimal, to_decimal};
use crate::json::{json_quoted, quote};

verus! {

/// The version of the filter, as the metadata reports it.
pub const FILTER_VERSION: &'static str = "0.1.0";

/// A point in time, counted from the Unix epoch.
#[derive(Debug, Clone, Copy, PartialEq, Eq, Structural)]
pub struct Timestamp {
    /// Whole seconds since the epoch.
    pub secs_since_epoch: u64,
    /// The nanoseconds beyond the last whole second.
    pub nanos_since_epoch: u32,
}

/// What the metadata of a response holds, as mathematical values.
pub struct MetadataView {
    pub request_path: Seq<char>,
    pub filter_version: Seq<char>,
    pub timestamp: Option<Timestamp>,
}

/// The metadata of one response. It is made when the response headers
/// arrive, encoded at once, and not kept.
#[derive(Debug, PartialEq, Eq)]
pub struct Metadata {
    request_path: String,
    filter_version: String,
    timestamp: Option<Timestamp>,
}

impl View for Metadata {
    type V = MetadataView;

    closed spec fn view(&self) -> MetadataView {
        MetadataView {
            request_path: self.request_path@,
            filter_version: self.filter_version@,
            timestamp: self.timestamp,
        }
    }
}

/// The JSON object of the metadata, given the string literals of its two
/// texts: the members `request_path`, `filter_version` and `timestamp`, in
/// this order and without white space, the timestamp as an object of the
/// seconds and nanoseconds since the epoch.
pub open spec fn framed(path_literal: Seq<char>, version_literal: Seq<char>, at: Timestamp) -> Seq<
    char,
> {
    "{\"request_path\":"@ + path_literal + ",\"filter_version\":"@ + version_literal
        + ",\"timestamp\":{\"secs_since_epoch\":"@ + decimal(at.secs_since_epoch as nat)
        + ",\"nanos_since_epoch\":"@ + decimal(at.nanos_since_epoch as nat) + "}}"@
}

/// The encoding of the metadata, or `None` where it has none: the time lies
/// before the epoch, or the codec fails on one of the texts.
pub open spec fn encoded(metadata: MetadataView) -> Option<Seq<char>> {
    match (
        json_quoted(metadata.request_path),
        json_quoted(metadata.filter_version),
        metadata.timestamp,
    ) {
        (Some(path_literal), Some(version_literal), Some(at)) => Some(
            framed(path_literal, version_literal, at),
        ),
        _ => None,
    }
}

/// Writes the JSON object of the metadata around the string literals of its
/// two texts.
pub fn frame(path_literal: &str, version_literal: &str, at: Timestamp) -> (text: String)
    ensures
        text@ == framed(path_literal@, version_literal@, at),
{
    let mut text = String::from_str("{\"request_path\":");
    text.append(path_literal);
    text.append(",\"filter_version\":");
    text.append(version_literal);
    text.append(",\"timestamp\":{\"secs_since_epoch\":");
    text.append(to_decimal(at.secs_since_epoch).as_str());
    text.append(",\"nanos_since_epoch\":");
    text.append(to_decimal(at.nanos_since_epoch as u64).as_str());
    text.append("}}");
    text
}

impl Metadata {
    /// The metadata of a response to a request for `request_path`, made at
    /// `timestamp`; `None` stands for a clock that reads before the epoch.
    pub fn new(request_path: String, timestamp: Option<Timestamp>) -> (metadata: Metadata)
        ensures
            metadata@ == (MetadataView {
                request_path: request_path@,
                filter_version: FILTER_VERSION@,
                timestamp,
            }),
    {
        Metadata { request_path, filter_version: String::from_str(FILTER_VERSION), timestamp }
    }

    /// The path of the request.
    pub fn request_path(&self) -> (path: &str)
        ensures
            path@ == self@.request_path,
    {
        self.request_path.as_str()
    }

    /// The version of the filter.
    pub fn filter_version(&self) -> (version: &str)
        ensures
            version@ == self@.filter_version,
    {
        self.filter_version.as_str()
    }

    /// The time at which the metadata was made.
    pub fn timestamp(&self) -> (timestamp: Option<Timestamp>)
        ensures
            timestamp == self@.timestamp,
    {
        self.timestamp
    }

    /// Encodes the metadata as a JSON object, or returns `None` where it has
    /// no encoding.
    pub fn to_json(&self) -> (text: Option<String>)
        ensures
            match text {
                Some(json) => encoded(self@) == Some(json@),
                None => encoded(self@) is None,
            },
    {
        let path_literal = match quote(self.request_path.as_str()) {
            Ok(literal) => literal,
            Err(_) => {
                return None;
            },
        };
        let version_literal = match quote(self.filter_version.as_str()) {
            Ok(literal) => literal,
            Err(_) => {
                return None;
            },
        };
        match self.timestamp {
            Some(at) => Some(frame(path_literal.as_str(), version_literal.as_str(), at)),
            None => None,
        }
    }
}

} // verus!
