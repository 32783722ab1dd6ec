//! The controller of one request.
//!
//! A controller is made when a request arrives and lives until the exchange
//! is logged. It moves through four phases, in this order and one step at a
//! time: request headers, response headers, response body, log. A callback
//! that arrives in another phase than its own changes nothing. Whatever
//! happens, a callback answers with an action, never with a failure: data
//! that is missing or unreadable is replaced by an empty value.

use vstd::prelude::*;
use vstd::string::*;
use vstd::utf8::*;
use crate::config::{FilterConfig, FilterConfigView};
use crate::decimal::{decimal, to_decimal};
use crate::headers::{
    lemma_set_keeps_others, lemma_set_then_get, value_of, with_header, HeaderSeq, Headers,
};
use crate::json::json_quoted;
use crate::metadata::{encoded, framed, Metadata, MetadataView, Timestamp, FILTER_VERSION};
use crate::properties::PropertyStore;
use crate::utf8::{decode_or_empty, lemma_text_round_trip, text_or_empty};

verus! {

/// The request header that carries the path of the request.
pub const PATH_HEADER: &'static str = ":path";

/// The request header that tells the upstream how long it may take.
pub const TIMEOUT_HEADER: &'static str = "x-envoy-upstream-rq-timeout-ms";

/// The response header that marks a response as seen by the filter.
pub const MARKER_HEADER: &'static str = "x-wasm-response";

/// The value of the marker header.
pub const MARKER_VALUE: &'static str = "processed";

/// The response header that carries the encoded metadata.
pub const METADATA_HEADER: &'static str = "x-response-metadata";

/// The property under which the path of the request is kept.
pub const REQUEST_PATH_KEY: &'static str = "request_path";

/// What a callback tells the proxy to do with the stream.
#[derive(Debug, Clone, Copy, PartialEq, Eq, Structural)]
pub enum Action {
    /// Go on forwarding.
    Continue,
    /// Hold the stream until more data has arrived.
    Pause,
}

/// The callback that a controller waits for.
#[derive(Debug, Clone, Copy, PartialEq, Eq, Structural)]
pub enum Phase {
    RequestHeaders,
    ResponseHeaders,
    ResponseBody,
    Log,
}

/// The record that a controller leaves when its exchange is complete.
#[derive(Debug, Clone, Copy, PartialEq, Eq, Structural)]
pub struct Completion {
    /// The identifier of the request.
    pub context_id: u32,
}

/// A controller as a mathematical value.
pub struct HttpFilterView {
    pub context_id: u32,
    pub config: FilterConfigView,
    pub phase: Phase,
    pub properties: Map<Seq<char>, Seq<u8>>,
    pub response_body: Seq<u8>,
}

/// The controller of one request.
#[derive(Debug)]
pub struct HttpFilter {
    context_id: u32,
    config: FilterConfig,
    phase: Phase,
    properties: PropertyStore,
    response_body: Vec<u8>,
}

impl View for HttpFilter {
    type V = HttpFilterView;

    closed spec fn view(&self) -> HttpFilterView {
        HttpFilterView {
            context_id: self.context_id,
            config: self.config@,
            phase: self.phase,
            properties: self.properties@,
            response_body: self.response_body@,
        }
    }
}

/// The phase that follows `phase`; the log phase is the last.
pub open spec fn next_phase(phase: Phase) -> Phase {
    match phase {
        Phase::RequestHeaders => Phase::ResponseHeaders,
        Phase::ResponseHeaders => Phase::ResponseBody,
        Phase::ResponseBody => Phase::Log,
        Phase::Log => Phase::Log,
    }
}

/// The path of a request: the value of its path header once the configured
/// header is set, or the empty text where there is no path header.
pub open spec fn request_path_of(config: FilterConfigView, headers: HeaderSeq) -> Seq<char> {
    match value_of(with_header(headers, config.header_name, config.header_value), PATH_HEADER@) {
        Some(path) => path,
        None => Seq::empty(),
    }
}

/// The request headers as the filter sends them on: the configured header
/// set to its value, then the timeout header set to the decimal numeral of
/// the configured timeout.
pub open spec fn request_headers_out(config: FilterConfigView, headers: HeaderSeq) -> HeaderSeq {
    with_header(
        with_header(headers, config.header_name, config.header_value),
        TIMEOUT_HEADER@,
        decimal(config.upstream_timeout_ms as nat),
    )
}

/// The controller after the request headers: the path is kept, as UTF-8,
/// under the request-path property.
pub open spec fn after_request_headers(state: HttpFilterView, headers: HeaderSeq) -> HttpFilterView {
    HttpFilterView {
        phase: Phase::ResponseHeaders,
        properties: state.properties.insert(
            REQUEST_PATH_KEY@,
            encode_utf8(request_path_of(state.config, headers)),
        ),
        ..state
    }
}

/// The path of the request as the properties hold it: the empty text where
/// the property is not there or is not valid UTF-8.
pub open spec fn stored_request_path(properties: Map<Seq<char>, Seq<u8>>) -> Seq<char> {
    if properties.contains_key(REQUEST_PATH_KEY@) {
        text_or_empty(properties[REQUEST_PATH_KEY@])
    } else {
        Seq::empty()
    }
}

/// The metadata of the response, made at `now`.
pub open spec fn response_metadata(state: HttpFilterView, now: Option<Timestamp>) -> MetadataView {
    MetadataView {
        request_path: stored_request_path(state.properties),
        filter_version: FILTER_VERSION@,
        timestamp: now,
    }
}

/// The response headers as the filter sends them on: the marker header set,
/// then the metadata header set to the encoded metadata, where the metadata
/// has an encoding.
pub open spec fn response_headers_out(
    state: HttpFilterView,
    headers: HeaderSeq,
    now: Option<Timestamp>,
) -> HeaderSeq {
    let marked = with_header(headers, MARKER_HEADER@, MARKER_VALUE@);
    match encoded(response_metadata(state, now)) {
        Some(json) => with_header(marked, METADATA_HEADER@, json),
        None => marked,
    }
}

/// The controller after the response headers.
pub open spec fn after_response_headers(state: HttpFilterView) -> HttpFilterView {
    HttpFilterView { phase: Phase::ResponseBody, ..state }
}

/// The answer to a body callback: pause until the body is complete.
pub open spec fn body_action(end_of_stream: bool) -> Action {
    if end_of_stream {
        Action::Continue
    } else {
        Action::Pause
    }
}

/// The controller after a body callback in the body phase: it holds the
/// body as far as it has arrived, and moves on once the body is complete.
pub open spec fn after_response_body(
    state: HttpFilterView,
    body: Seq<u8>,
    end_of_stream: bool,
) -> HttpFilterView {
    HttpFilterView {
        phase: if end_of_stream {
            Phase::Log
        } else {
            Phase::ResponseBody
        },
        response_body: body,
        ..state
    }
}

/// The controller after a body callback, in whatever phase it arrives.
pub open spec fn body_step(state: HttpFilterView, body: Seq<u8>, end_of_stream: bool) -> HttpFilterView {
    if state.phase == Phase::ResponseBody {
        after_response_body(state, body, end_of_stream)
    } else {
        state
    }
}

/// The controller after a run of body callbacks, each given by the body as
/// far as it has arrived and by whether it is complete.
pub open spec fn after_body_calls(state: HttpFilterView, calls: Seq<(Seq<u8>, bool)>) -> HttpFilterView
    decreases calls.len(),
{
    if calls.len() == 0 {
        state
    } else {
        body_step(after_body_calls(state, calls.drop_last()), calls.last().0, calls.last().1)
    }
}

/// The length of the complete body, where there is one and it is not empty.
pub open spec fn recorded_body_size(state: HttpFilterView) -> Option<usize> {
    if state.phase == Phase::Log && state.response_body.len() > 0 {
        Some(state.response_body.len() as usize)
    } else {
        None
    }
}

/// The line that reports a completed exchange.
pub open spec fn completion_message(context_id: u32) -> Seq<char> {
    "HTTP request/response completed for context: "@ + decimal(context_id as nat)
}

impl Completion {
    /// The line that reports the completed exchange.
    pub fn message(&self) -> (line: String)
        ensures
            line@ == completion_message(self.context_id),
    {
        let mut line = String::from_str("HTTP request/response completed for context: ");
        line.append(to_decimal(self.context_id as u64).as_str());
        line
    }
}

impl HttpFilter {
    /// The controller of a new request: it waits for the request headers,
    /// and has no properties and no body yet.
    pub fn new(context_id: u32, config: FilterConfig) -> (filter: HttpFilter)
        ensures
            filter@ == (HttpFilterView {
                context_id,
                config: config@,
                phase: Phase::RequestHeaders,
                properties: Map::empty(),
                response_body: Seq::empty(),
            }),
    {
        HttpFilter {
            context_id,
            config,
            phase: Phase::RequestHeaders,
            properties: PropertyStore::new(),
            response_body: Vec::new(),
        }
    }

    /// The identifier of the request.
    pub fn context_id(&self) -> (id: u32)
        ensures
            id == self@.context_id,
    {
        self.context_id
    }

    /// The configuration that the request started with.
    pub fn config(&self) -> (config: &FilterConfig)
        ensures
            config@ == self@.config,
    {
        &self.config
    }

    /// The callback that the controller waits for.
    pub fn phase(&self) -> (phase: Phase)
        ensures
            phase == self@.phase,
    {
        self.phase
    }

    /// The body of the response, as far as it has arrived.
    pub fn response_body(&self) -> (body: &[u8])
        ensures
            body@ == self@.response_body,
    {
        self.response_body.as_slice()
    }

    /// The length of the complete body of the response: `None` until the
    /// body is complete, and where it is empty.
    pub fn response_body_size(&self) -> (size: Option<usize>)
        ensures
            size == recorded_body_size(self@),
    {
        match self.phase {
            Phase::Log => if self.response_body.len() > 0 {
                Some(self.response_body.len())
            } else {
                None
            },
            _ => None,
        }
    }

    /// The property of the request under `key`.
    pub fn get_property(&self, key: &str) -> (value: Option<&[u8]>)
        ensures
            match value {
                Some(bytes) => self@.properties.contains_key(key@) && self@.properties[key@]
                    == bytes@,
                None => !self@.properties.contains_key(key@),
            },
    {
        self.properties.get(key)
    }

    /// Sets the property of the request under `key`, or removes it where
    /// `value` is `None`. Nothing else changes.
    pub fn set_property(&mut self, key: &str, value: Option<&[u8]>)
        ensures
            final(self)@ == (HttpFilterView {
                properties: match value {
                    Some(bytes) => old(self)@.properties.insert(key@, bytes@),
                    None => old(self)@.properties.remove(key@),
                },
                ..old(self)@
            }),
    {
        self.properties.set(key, value);
    }

    /// Handles the request headers.
    ///
    /// In the request-headers phase: sets the configured header, reads the
    /// path of the request and keeps it as a property, sets the timeout
    /// header, and moves to the response-headers phase. In any other phase
    /// nothing changes. The request always continues.
    pub fn on_http_request_headers(&mut self, headers: &mut Headers) -> (action: Action)
        ensures
            action == Action::Continue,
            old(self)@.phase == Phase::RequestHeaders ==> final(self)@ == after_request_headers(
                old(self)@,
                old(headers)@,
            ) && final(headers)@ == request_headers_out(old(self)@.config, old(headers)@),
            old(self)@.phase != Phase::RequestHeaders ==> final(self)@ == old(self)@
                && final(headers)@ == old(headers)@,
    {
        match self.phase {
            Phase::RequestHeaders => {},
            _ => {
                return Action::Continue;
            },
        }
        headers.set(self.config.header_name(), self.config.header_value());
        let path = match headers.get(PATH_HEADER) {
            Some(value) => String::from_str(value),
            None => String::new(),
        };
        self.properties.set(REQUEST_PATH_KEY, Some(path.as_str().as_bytes()));
        let timeout = to_decimal(self.config.upstream_timeout_ms());
        headers.set(TIMEOUT_HEADER, timeout.as_str());
        self.phase = Phase::ResponseHeaders;
        Action::Continue
    }

    /// Handles the response headers; `now` is the time of the call, `None`
    /// where the clock reads before the epoch.
    ///
    /// In the response-headers phase: sets the marker header, makes the
    /// metadata of the response from the path that the request left and from
    /// `now`, sets the metadata header where the metadata has an encoding,
    /// and moves to the response-body phase. In any other phase nothing
    /// changes. The response always continues.
    pub fn on_http_response_headers(&mut self, headers: &mut Headers, now: Option<Timestamp>) -> (action:
        Action)
        ensures
            action == Action::Continue,
            old(self)@.phase == Phase::ResponseHeaders ==> final(self)@ == after_response_headers(
                old(self)@,
            ) && final(headers)@ == response_headers_out(old(self)@, old(headers)@, now),
            old(self)@.phase != Phase::ResponseHeaders ==> final(self)@ == old(self)@
                && final(headers)@ == old(headers)@,
    {
        match self.phase {
            Phase::ResponseHeaders => {},
            _ => {
                return Action::Continue;
            },
        }
        headers.set(MARKER_HEADER, MARKER_VALUE);
        let request_path = match self.properties.get(REQUEST_PATH_KEY) {
            Some(bytes) => decode_or_empty(bytes),
            None => String::new(),
        };
        let metadata = Metadata::new(request_path, now);
        match metadata.to_json() {
            Some(json) => {
                headers.set(METADATA_HEADER, json.as_str());
            },
            None => {},
        }
        self.phase = Phase::ResponseBody;
        Action::Continue
    }

    /// Handles the response body; `body` is the body as far as it has
    /// arrived, and `end_of_stream` tells whether it is complete.
    ///
    /// The answer is to pause until the body is complete, and then to
    /// continue, whatever the body holds. In the response-body phase the
    /// controller keeps `body`, and moves to the log phase once the body is
    /// complete. In any other phase nothing changes.
    pub fn on_http_response_body(&mut self, body: Vec<u8>, end_of_stream: bool) -> (action: Action)
        ensures
            action == body_action(end_of_stream),
            final(self)@ == body_step(old(self)@, body@, end_of_stream),
    {
        match self.phase {
            Phase::ResponseBody => {
                self.response_body = body;
                if end_of_stream {
                    self.phase = Phase::Log;
                }
            },
            _ => {},
        }
        if end_of_stream {
            Action::Continue
        } else {
            Action::Pause
        }
    }

    /// Ends the exchange, in whatever phase it is, and returns its record.
    /// The controller is used up: no exchange is logged twice.
    pub fn on_log(self) -> (record: Completion)
        ensures
            record.context_id == self@.context_id,
    {
        Completion { context_id: self.context_id }
    }
}

/// Once the request headers are handled, the timeout header carries the
/// decimal numeral of the configured timeout, and the configured header
/// carries its configured value, whatever the headers held before. One
/// configuration is apart: where the configured header is the timeout header
/// itself, the timeout is what it carries.
pub proof fn lemma_request_headers_carry_config(config: FilterConfigView, headers: HeaderSeq)
    ensures
        value_of(request_headers_out(config, headers), TIMEOUT_HEADER@) == Some(
            decimal(config.upstream_timeout_ms as nat),
        ),
        config.header_name != TIMEOUT_HEADER@ || config.header_value == decimal(
            config.upstream_timeout_ms as nat,
        ) ==> value_of(request_headers_out(config, headers), config.header_name) == Some(
            config.header_value,
        ),
{
    let named = with_header(headers, config.header_name, config.header_value);
    let timeout = decimal(config.upstream_timeout_ms as nat);
    lemma_set_then_get(named, TIMEOUT_HEADER@, timeout);
    if config.header_name != TIMEOUT_HEADER@ {
        lemma_set_keeps_others(named, TIMEOUT_HEADER@, timeout, config.header_name);
        lemma_set_then_get(headers, config.header_name, config.header_value);
    }
}

/// Where the configured header is not the path header, the path of a
/// request is the value of its path header as it arrived.
pub proof fn lemma_request_path_is_path_header(config: FilterConfigView, headers: HeaderSeq)
    requires
        config.header_name != PATH_HEADER@,
    ensures
        request_path_of(config, headers) == match value_of(headers, PATH_HEADER@) {
            Some(path) => path,
            None => Seq::empty(),
        },
{
    lemma_set_keeps_others(headers, config.header_name, config.header_value, PATH_HEADER@);
}

/// A request without a path header has the empty path: the empty text is
/// what the request phase keeps, and what the metadata of the response
/// reports. One configuration is apart: where the configured header is the
/// path header itself, its value is the path.
pub proof fn lemma_missing_path_is_empty(
    state: HttpFilterView,
    headers: HeaderSeq,
    now: Option<Timestamp>,
)
    requires
        value_of(headers, PATH_HEADER@) is None,
        state.config.header_name != PATH_HEADER@ || state.config.header_value.len() == 0,
    ensures
        request_path_of(state.config, headers) == Seq::<char>::empty(),
        after_request_headers(state, headers).properties[REQUEST_PATH_KEY@] == Seq::<u8>::empty(),
        response_metadata(after_request_headers(state, headers), now).request_path == Seq::<
            char,
        >::empty(),
{
    if state.config.header_name != PATH_HEADER@ {
        lemma_request_path_is_path_header(state.config, headers);
    } else {
        lemma_set_then_get(headers, state.config.header_name, state.config.header_value);
        assert(state.config.header_value =~= Seq::<char>::empty());
    }
    assert(request_path_of(state.config, headers) =~= Seq::<char>::empty());
    assert(encode_utf8(Seq::<char>::empty()) =~= Seq::<u8>::empty());
    lemma_text_round_trip(Seq::<char>::empty());
}

/// The path that the request phase keeps is the path that the response phase
/// finds: it is held as a property, comes back unchanged, and is the path of
/// the metadata. Where the metadata has an encoding, the metadata header
/// carries it, with the string literal of that path under `request_path`.
pub proof fn lemma_path_round_trip(
    state: HttpFilterView,
    request_headers: HeaderSeq,
    response_headers: HeaderSeq,
    now: Option<Timestamp>,
)
    ensures
        ({
            let path = request_path_of(state.config, request_headers);
            let kept = after_request_headers(state, request_headers);
            &&& kept.properties.contains_key(REQUEST_PATH_KEY@)
            &&& kept.properties[REQUEST_PATH_KEY@] == encode_utf8(path)
            &&& stored_request_path(kept.properties) == path
            &&& response_metadata(kept, now).request_path == path
            &&& encoded(response_metadata(kept, now)) matches Some(json) ==> {
                &&& value_of(response_headers_out(kept, response_headers, now), METADATA_HEADER@)
                    == Some(json)
                &&& json == framed(
                    json_quoted(path).unwrap(),
                    json_quoted(FILTER_VERSION@).unwrap(),
                    now.unwrap(),
                )
            }
        }),
{
    let path = request_path_of(state.config, request_headers);
    let kept = after_request_headers(state, request_headers);
    lemma_text_round_trip(path);
    match encoded(response_metadata(kept, now)) {
        Some(json) => {
            lemma_set_then_get(
                with_header(response_headers, MARKER_HEADER@, MARKER_VALUE@),
                METADATA_HEADER@,
                json,
            );
        },
        None => {},
    }
}

/// Once the response headers are handled, the marker header carries its
/// value, whatever the headers held before.
pub proof fn lemma_response_is_marked(
    state: HttpFilterView,
    headers: HeaderSeq,
    now: Option<Timestamp>,
)
    ensures
        value_of(response_headers_out(state, headers, now), MARKER_HEADER@) == Some(MARKER_VALUE@),
{
    reveal_strlit("x-wasm-response");
    reveal_strlit("x-response-metadata");
    assert(MARKER_HEADER@ != METADATA_HEADER@) by {
        assert(MARKER_HEADER@.len() != METADATA_HEADER@.len());
    }
    let marked = with_header(headers, MARKER_HEADER@, MARKER_VALUE@);
    lemma_set_then_get(headers, MARKER_HEADER@, MARKER_VALUE@);
    match encoded(response_metadata(state, now)) {
        Some(json) => {
            lemma_set_keeps_others(marked, METADATA_HEADER@, json, MARKER_HEADER@);
        },
        None => {},
    }
}

/// However many body callbacks arrive before the body is complete, each is
/// answered with a pause; the callback that completes the body is answered
/// with the order to continue, whatever the body holds. A controller in the
/// body phase stays there through the pauses, and goes to the log phase,
/// holding the complete body, when the body is complete.
pub proof fn lemma_body_pauses_until_complete(
    state: HttpFilterView,
    calls: Seq<(Seq<u8>, bool)>,
    complete: Seq<u8>,
)
    requires
        forall|i: int| 0 <= i < calls.len() ==> !calls[i].1,
    ensures
        forall|i: int| 0 <= i < calls.len() ==> body_action(#[trigger] calls[i].1) == Action::Pause,
        body_action(true) == Action::Continue,
        state.phase == Phase::ResponseBody ==> {
            &&& after_body_calls(state, calls).phase == Phase::ResponseBody
            &&& body_step(after_body_calls(state, calls), complete, true).phase == Phase::Log
            &&& body_step(after_body_calls(state, calls), complete, true).response_body
                == complete
        },
    decreases calls.len(),
{
    if calls.len() > 0 {
        lemma_body_pauses_until_complete(state, calls.drop_last(), complete);
    }
}

/// A callback leaves the controller in its phase or takes it to the next
/// one: no phase is left out, and none comes back. The identifier and the
/// configuration of the request stay as they were at its start.
pub proof fn lemma_phases_in_order(
    state: HttpFilterView,
    headers: HeaderSeq,
    body: Seq<u8>,
    end_of_stream: bool,
)
    ensures
        state.phase == Phase::RequestHeaders ==> after_request_headers(state, headers).phase
            == next_phase(state.phase),
        state.phase == Phase::ResponseHeaders ==> after_response_headers(state).phase
            == next_phase(state.phase),
        body_step(state, body, end_of_stream).phase == state.phase || body_step(
            state,
            body,
            end_of_stream,
        ).phase == next_phase(state.phase),
        after_request_headers(state, headers).config == state.config,
        after_request_headers(state, headers).context_id == state.context_id,
        after_response_headers(state).config == state.config,
        after_response_headers(state).context_id == state.context_id,
        body_step(state, body, end_of_stream).config == state.config,
        body_step(state, body, end_of_stream).context_id == state.context_id,
{
}

} // verus!
