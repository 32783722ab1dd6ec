//! The root of a filter deployment: it resolves the configuration once and
//! makes a controller for each request.

use vstd::prelude::*;
use crate::config::{
    configure, resolved, ConfigError, ConfigFailure, FilterConfig, FilterConfigView,
};
use crate::filter::{HttpFilter, HttpFilterView, Phase};

verus! {

/// The kind of traffic that the contexts of a root handle.
#[derive(Debug, Clone, Copy, PartialEq, Eq, Structural)]
pub enum ContextType {
    HttpContext,
    StreamContext,
}

/// The root of a filter deployment.
///
/// A root starts without a configuration. Each resolution replaces what the
/// root held before: a success by the new configuration, a failure by the
/// failure. A root that holds no configuration makes no controllers.
#[derive(Debug)]
pub struct FilterRoot {
    resolution: Option<Result<FilterConfig, ConfigError>>,
}

impl View for FilterRoot {
    type V = Option<Result<FilterConfigView, ConfigFailure>>;

    closed spec fn view(&self) -> Option<Result<FilterConfigView, ConfigFailure>> {
        match self.resolution {
            None => None,
            Some(Ok(config)) => Some(Ok(config@)),
            Some(Err(error)) => Some(Err(error@)),
        }
    }
}

/// The bytes of an optional slice.
pub open spec fn bytes_of(raw: Option<&[u8]>) -> Option<Seq<u8>> {
    match raw {
        Some(bytes) => Some(bytes@),
        None => None,
    }
}

impl Default for FilterRoot {
    fn default() -> (root: FilterRoot)
        ensures
            root@ is None,
    {
        FilterRoot { resolution: None }
    }
}

impl FilterRoot {
    /// A root without a configuration.
    pub fn new() -> (root: FilterRoot)
        ensures
            root@ is None,
    {
        FilterRoot { resolution: None }
    }

    /// Resolves the configuration from what was supplied, and tells whether
    /// the deployment may serve traffic. After a failure the root holds no
    /// configuration, whatever it held before.
    pub fn on_configure(&mut self, raw: Option<&[u8]>) -> (accepted: bool)
        ensures
            final(self)@ == Some(resolved(bytes_of(raw))),
            accepted == resolved(bytes_of(raw)) is Ok,
            raw is None ==> accepted,
    {
        let outcome = configure(raw);
        let accepted = outcome.is_ok();
        self.resolution = Some(outcome);
        accepted
    }

    /// The configuration that the root holds.
    pub fn config(&self) -> (config: Option<&FilterConfig>)
        ensures
            match config {
                Some(held) => self@ == Some(Ok::<FilterConfigView, ConfigFailure>(held@)),
                None => !(self@ matches Some(Ok(_))),
            },
    {
        match &self.resolution {
            Some(Ok(config)) => Some(config),
            _ => None,
        }
    }

    /// The failure of the last resolution, where it failed.
    pub fn failure(&self) -> (failure: Option<&ConfigError>)
        ensures
            match failure {
                Some(error) => self@ == Some(Err::<FilterConfigView, ConfigFailure>(error@)),
                None => !(self@ matches Some(Err(_))),
            },
    {
        match &self.resolution {
            Some(Err(error)) => Some(error),
            _ => None,
        }
    }

    /// Makes the controller of a new request, with its own copy of the
    /// configuration as it is now. A root without a configuration makes
    /// none.
    pub fn create_http_context(&self, context_id: u32) -> (context: Option<HttpFilter>)
        ensures
            match context {
                Some(filter) => self@ == Some(
                    Ok::<FilterConfigView, ConfigFailure>(filter@.config),
                ) && filter@ == (HttpFilterView {
                    context_id,
                    config: filter@.config,
                    phase: Phase::RequestHeaders,
                    properties: Map::empty(),
                    response_body: Seq::empty(),
                }),
                None => !(self@ matches Some(Ok(_))),
            },
    {
        match &self.resolution {
            Some(Ok(config)) => Some(HttpFilter::new(context_id, config.clone())),
            _ => None,
        }
    }

    /// The kind of contexts that the root makes.
    pub fn get_type(&self) -> (kind: Option<ContextType>)
        ensures
            kind == Some(ContextType::HttpContext),
    {
        Some(ContextType::HttpContext)
    }
}

} // verus!
