use vstd::prelude::*;

use crate::metrics::step_call;
use crate::metrics::Metrics;
use crate::types::Context;
use crate::types::Event;
use crate::types::Method;
use crate::types::Response;

verus! {

/// The four optional request headers that become the event's metadata
/// strings.
pub struct EventHeaders {
    /// The `event-id` header, when the request carries it.
    pub event_id: Option<String>,
    /// The `event-type` header, when the request carries it.
    pub event_type: Option<String>,
    /// The `event-time` header, when the request carries it.
    pub event_time: Option<String>,
    /// The `event-namespace` header, when the request carries it.
    pub event_namespace: Option<String>,
}

/// A transport failure: the request body could not be read.
pub struct ReadError;

/// The text of an optional header: an absent header reads as the empty
/// string.
pub open spec fn header_text(h: Option<String>) -> Seq<char> {
    match h {
        Some(s) => s@,
        None => Seq::empty(),
    }
}

/// True when the request method carries a payload into the event: the
/// body is read for `POST` and for no other method.
pub open spec fn spec_expects_payload(method: Method) -> bool {
    method == Method::Post
}

/// Whether the body of a request with this method is read at all; the
/// embedding transport consults this before consuming the body stream.
pub fn expects_payload(method: Method) -> (r: bool)
    ensures
        r == spec_expects_payload(method),
{
    match method {
        Method::Post => true,
        _ => false,
    }
}

/// True when `e` is the event the dispatcher builds for a request with
/// the given method, body and headers: the payload is attached exactly
/// when the method carries one — otherwise the data is absent no matter
/// what was sent — and each metadata string is the matching header's
/// text, or empty.
pub open spec fn event_built_from(
    e: Event,
    method: Method,
    body: Option<Vec<u8>>,
    headers: EventHeaders,
) -> bool {
    &&& e.data == (if spec_expects_payload(method) {
        body
    } else {
        Option::<Vec<u8>>::None
    })
    &&& e.event_id@ == header_text(headers.event_id)
    &&& e.event_type@ == header_text(headers.event_type)
    &&& e.event_time@ == header_text(headers.event_time)
    &&& e.event_namespace@ == header_text(headers.event_namespace)
}

/// The header's text, or a fresh empty string when the header is absent.
fn header_or_empty(h: Option<String>) -> (r: String)
    ensures
        r@ == header_text(h),
{
    match h {
        Some(s) => s,
        None => String::new(),
    }
}

/// Builds the normalized event for one inbound request.
pub fn build_event(method: Method, body: Option<Vec<u8>>, headers: EventHeaders) -> (e: Event)
    ensures
        event_built_from(e, method, body, headers),
{
    let data = if expects_payload(method) {
        body
    } else {
        None
    };
    Event {
        data,
        event_id: header_or_empty(headers.event_id),
        event_type: header_or_empty(headers.event_type),
        event_time: header_or_empty(headers.event_time),
        event_namespace: header_or_empty(headers.event_namespace),
    }
}

/// Declares `std::time::Instant` so that a clock reading can be held and
/// handed back to the clock; its value stays opaque.
#[verifier::external_type_specification]
#[verifier::external_body]
pub struct ExInstant(std::time::Instant);

/// Relies on `std::time::Instant::now`: an opaque reading of the
/// monotonic clock. Nothing is assumed of its value.
#[verifier::external_body]
fn clock_now() -> std::time::Instant {
    std::time::Instant::now()
}

/// Relies on `std::time::Instant::elapsed`: the time since `start`,
/// converted to nanoseconds (`Duration::as_nanos`, truncated to 64 bits).
/// The value depends on the clock, so nothing is assumed of it.
#[verifier::external_body]
fn clock_elapsed_nanos(start: &std::time::Instant) -> u64 {
    start.elapsed().as_nanos() as u64
}

/// Turns one inbound request into one handler invocation and its
/// response. In order: the event is built, the call counter ticks, the
/// timer starts, the handler runs synchronously on the event and the
/// given context, the observed duration is recorded, and the handler's
/// return value becomes the body of a `200` response. A request whose
/// body could not be read is answered with a server error instead: the
/// handler is not invoked and the metrics are untouched. A handler that
/// aborts propagates: dispatch does not catch it.
pub fn dispatch<F: Fn(Event, Context) -> String>(
    handler: F,
    method: Method,
    body: Result<Option<Vec<u8>>, ReadError>,
    headers: EventHeaders,
    ctx: Context,
    metrics: &mut Metrics,
) -> (r: Response)
    requires
        body is Ok ==> old(metrics)@.calls < u64::MAX,
        body is Ok ==> (forall|e: Event|
            #[trigger] event_built_from(e, method, body->Ok_0, headers) ==> call_requires(
                handler,
                (e, ctx),
            )),
    ensures
        body is Ok ==> {
            &&& r.status == 200
            &&& (exists|d: u64| final(metrics)@ == step_call(old(metrics)@, d))
            &&& (exists|e: Event|
                #[trigger] event_built_from(e, method, body->Ok_0, headers) && call_ensures(
                    handler,
                    (e, ctx),
                    r.body,
                ))
        },
        body is Err ==> {
            &&& r.status == 500
            &&& r.body@ == "Internal Server Error"@
            &&& final(metrics)@ == old(metrics)@
        },
{
    match body {
        Ok(b) => {
            let event = build_event(method, b, headers);
            metrics.inc_calls();
            let start = clock_now();
            let out = handler(event, ctx);
            let d = clock_elapsed_nanos(&start);
            metrics.observe(d);
            proof {
                assert(metrics@ =~= step_call(old(metrics)@, d));
            }
            Response { status: 200, body: out }
        },
        Err(_) => {
            proof {
                assert(metrics@ =~= old(metrics)@);
            }
            Response { status: 500, body: "Internal Server Error".to_owned() }
        },
    }
}

} // verus!
