use vstd::prelude::*;

verus! {

/// The request methods the runtime distinguishes. Only `POST` carries a
/// payload into the handler, and only `GET` and `HEAD` are accepted by the
/// health probe; every other method behaves alike, so the remainder collapse
/// into [`Method::Other`].
#[derive(Clone, Copy, PartialEq, Eq, Structural, Debug)]
pub enum Method {
    Get,
    Head,
    Post,
    Other,
}

/// Information about one call to the user function, assembled from the
/// inbound request. Built once per request, handed to the handler, then
/// discarded.
pub struct Event {
    /// The request payload, present exactly when the request method carries
    /// a body (`POST`).
    pub data: Option<Vec<u8>>,
    /// The `event-id` request header, or empty when absent.
    pub event_id: String,
    /// The `event-type` request header, or empty when absent.
    pub event_type: String,
    /// The `event-time` request header, or empty when absent.
    pub event_time: String,
    /// The `event-namespace` request header, or empty when absent.
    pub event_namespace: String,
}

/// Information about the environment the function runs in. Derived once
/// from configuration at startup; every request sees the same values.
pub struct Context {
    /// The registered name of the selected handler.
    pub function_name: String,
    /// Free-form runtime identifier, empty if not configured.
    pub runtime: String,
    /// Advertised timeout in seconds; informational only, never enforced.
    pub timeout: usize,
    /// Advertised memory limit; `0` means unset/unbounded.
    pub memory_limit: usize,
}

/// A plain HTTP response: a status code and a full body.
pub struct Response {
    pub status: u16,
    pub body: String,
}

} // verus!
