use kubeless::config::config_value;
use kubeless::config::parse_usize;
use kubeless::config::DEFAULT_MEMORY_LIMIT;
use kubeless::config::DEFAULT_TIMEOUT;
use kubeless::dispatch::build_event;
use kubeless::dispatch::dispatch;
use kubeless::dispatch::expects_payload;
use kubeless::dispatch::EventHeaders;
use kubeless::dispatch::ReadError;
use kubeless::health::healthz;
use kubeless::metrics::Metrics;
use kubeless::registry::available_functions;
use kubeless::registry::select_function;
use kubeless::Context;
use kubeless::Method;

use kubeless::echo_or_panic;
use kubeless::say_goodbye;
use kubeless::say_hello;

fn default_context() -> Context {
    Context {
        function_name: String::from("say_hello"),
        runtime: String::new(),
        timeout: DEFAULT_TIMEOUT,
        memory_limit: DEFAULT_MEMORY_LIMIT,
    }
}

fn no_headers() -> EventHeaders {
    EventHeaders {
        event_id: None,
        event_type: None,
        event_time: None,
        event_namespace: None,
    }
}

fn names(list: &[&str]) -> Vec<String> {
    list.iter().map(|n| String::from(*n)).collect()
}

#[test]
fn select_matching_name() {
    let candidates = names(&["say_hello", "say_goodbye", "echo_or_panic"]);
    assert_eq!(
        select_function(&candidates, &String::from("say_goodbye")),
        Ok(1)
    );
}

#[test]
fn select_first_registration_wins() {
    let candidates = names(&["twin", "other", "twin"]);
    assert_eq!(select_function(&candidates, &String::from("twin")), Ok(0));
}

#[test]
fn select_unmatched_reports_every_candidate() {
    let candidates = names(&["greet", "farewell"]);
    let err = select_function(&candidates, &String::from("nonexistent")).unwrap_err();
    assert!(err.contains("greet"));
    assert!(err.contains("farewell"));
    assert_eq!(
        err,
        "No function named nonexistent available, available functions are: greet, farewell"
    );
}

#[test]
fn select_among_no_candidates_fails() {
    let candidates = names(&[]);
    let err = select_function(&candidates, &String::from("any")).unwrap_err();
    assert_eq!(
        err,
        "No function named any available, available functions are: "
    );
}

#[test]
fn available_functions_joins_in_order() {
    let candidates = names(&["a", "b", "c"]);
    assert_eq!(available_functions(&candidates), "a, b, c");
}

#[test]
fn available_functions_skips_separator_after_empty_name() {
    let candidates = names(&["", "greet"]);
    assert_eq!(available_functions(&candidates), "greet");
}

#[test]
fn post_event_carries_body() {
    let event = build_event(Method::Post, Some(b"World".to_vec()), no_headers());
    assert_eq!(event.data, Some(b"World".to_vec()));
}

#[test]
fn non_payload_method_never_carries_body() {
    let event = build_event(Method::Get, Some(b"ignored".to_vec()), no_headers());
    assert_eq!(event.data, None);
    let event = build_event(Method::Head, Some(b"ignored".to_vec()), no_headers());
    assert_eq!(event.data, None);
    let event = build_event(Method::Other, Some(b"ignored".to_vec()), no_headers());
    assert_eq!(event.data, None);
}

#[test]
fn only_post_expects_payload() {
    assert!(expects_payload(Method::Post));
    assert!(!expects_payload(Method::Get));
    assert!(!expects_payload(Method::Head));
    assert!(!expects_payload(Method::Other));
}

#[test]
fn missing_event_id_reads_empty() {
    let event = build_event(Method::Get, None, no_headers());
    assert_eq!(event.event_id, "");
    assert_eq!(event.event_type, "");
    assert_eq!(event.event_time, "");
    assert_eq!(event.event_namespace, "");
}

#[test]
fn present_headers_pass_through_verbatim() {
    let headers = EventHeaders {
        event_id: Some(String::from("id-1")),
        event_type: Some(String::from("test.event")),
        event_time: Some(String::from("2020-01-01T00:00:00Z")),
        event_namespace: Some(String::from("default")),
    };
    let event = build_event(Method::Get, None, headers);
    assert_eq!(event.event_id, "id-1");
    assert_eq!(event.event_type, "test.event");
    assert_eq!(event.event_time, "2020-01-01T00:00:00Z");
    assert_eq!(event.event_namespace, "default");
}

#[test]
fn healthz_get_and_head_are_ok() {
    let r = healthz(Method::Get);
    assert_eq!(r.status, 200);
    assert_eq!(r.body, "OK");
    let r = healthz(Method::Head);
    assert_eq!(r.status, 200);
    assert_eq!(r.body, "OK");
}

#[test]
fn healthz_post_is_bad_request() {
    let r = healthz(Method::Post);
    assert_eq!(r.status, 400);
    assert_eq!(r.body, "Bad Request");
    let r = healthz(Method::Other);
    assert_eq!(r.status, 400);
    assert_eq!(r.body, "Bad Request");
}

#[test]
fn end_to_end_greeting() {
    let candidates = names(&["say_hello", "say_goodbye", "echo_or_panic"]);
    assert_eq!(select_function(&candidates, &String::from("say_hello")), Ok(0));

    let mut metrics = Metrics::new();
    let r = dispatch(
        say_hello,
        Method::Post,
        Ok(Some(b"World".to_vec())),
        no_headers(),
        default_context(),
        &mut metrics,
    );
    assert_eq!(r.status, 200);
    assert_eq!(r.body, "Hello, World");

    let r = dispatch(
        say_hello,
        Method::Get,
        Ok(None),
        no_headers(),
        default_context(),
        &mut metrics,
    );
    assert_eq!(r.status, 200);
    assert_eq!(r.body, "Hello");
}

#[test]
fn counter_grows_once_per_dispatched_call() {
    let mut metrics = Metrics::new();
    assert_eq!(metrics.total_calls(), 0);
    for _ in 0..3 {
        let r = dispatch(
            say_hello,
            Method::Get,
            Ok(None),
            no_headers(),
            default_context(),
            &mut metrics,
        );
        assert_eq!(r.status, 200);
    }
    assert_eq!(metrics.total_calls(), 3);
    assert_eq!(metrics.observed_durations().len(), 3);
}

#[test]
fn body_read_failure_skips_handler_and_metrics() {
    let mut metrics = Metrics::new();
    let r = dispatch(
        say_hello,
        Method::Post,
        Err(ReadError),
        no_headers(),
        default_context(),
        &mut metrics,
    );
    assert_eq!(r.status, 500);
    assert_eq!(r.body, "Internal Server Error");
    assert_eq!(metrics.total_calls(), 0);
    assert_eq!(metrics.observed_durations().len(), 0);
}

#[test]
fn say_hello_names_the_payload() {
    let event = build_event(Method::Post, Some(b"World".to_vec()), no_headers());
    assert_eq!(say_hello(event, default_context()), "Hello, World");
    let event = build_event(Method::Get, None, no_headers());
    assert_eq!(say_hello(event, default_context()), "Hello");
}

#[test]
fn say_goodbye_names_the_payload() {
    let event = build_event(Method::Post, Some(b"World".to_vec()), no_headers());
    assert_eq!(say_goodbye(event, default_context()), "Goodbye, World");
    let event = build_event(Method::Get, None, no_headers());
    assert_eq!(say_goodbye(event, default_context()), "Goodbye");
}

#[test]
fn echo_returns_the_payload_text() {
    let event = build_event(Method::Post, Some(b"ping".to_vec()), no_headers());
    assert_eq!(echo_or_panic(event, default_context()), "ping");
}

#[test]
fn invalid_utf8_is_replaced_not_echoed() {
    let event = build_event(Method::Post, Some(vec![0xff, 0xfe]), no_headers());
    assert_eq!(echo_or_panic(event, default_context()), "\u{fffd}\u{fffd}");
}

#[test]
fn config_value_parses_decimal() {
    assert_eq!(config_value(Some("42"), DEFAULT_TIMEOUT), 42);
    assert_eq!(config_value(Some("+7"), DEFAULT_TIMEOUT), 7);
    assert_eq!(config_value(Some("0"), DEFAULT_TIMEOUT), 0);
}

#[test]
fn config_value_falls_back_to_default() {
    assert_eq!(config_value(None, DEFAULT_TIMEOUT), DEFAULT_TIMEOUT);
    assert_eq!(config_value(Some(""), DEFAULT_TIMEOUT), DEFAULT_TIMEOUT);
    assert_eq!(config_value(Some("abc"), DEFAULT_TIMEOUT), DEFAULT_TIMEOUT);
    assert_eq!(config_value(Some("-1"), DEFAULT_TIMEOUT), DEFAULT_TIMEOUT);
    assert_eq!(config_value(Some("1 2"), DEFAULT_TIMEOUT), DEFAULT_TIMEOUT);
    assert_eq!(
        config_value(Some("99999999999999999999999999"), DEFAULT_TIMEOUT),
        DEFAULT_TIMEOUT
    );
}

#[test]
fn parse_usize_accepts_only_decimal_literals() {
    assert_eq!(parse_usize("180"), Some(180));
    assert_eq!(parse_usize("+0"), Some(0));
    assert_eq!(parse_usize("18446744073709551615"), Some(usize::MAX));
    assert_eq!(parse_usize("18446744073709551616"), None);
    assert_eq!(parse_usize("+"), None);
    assert_eq!(parse_usize("++1"), None);
    assert_eq!(parse_usize("1x"), None);
    assert_eq!(parse_usize(""), None);
}

#[test]
fn metrics_record_calls_and_observations() {
    let mut metrics = Metrics::new();
    metrics.inc_calls();
    metrics.observe(5);
    metrics.inc_calls();
    metrics.observe(9);
    assert_eq!(metrics.total_calls(), 2);
    assert_eq!(metrics.observed_durations(), &vec![5u64, 9u64]);
}
