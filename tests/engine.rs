use rust_req::batch::BatchCollector;
use rust_req::client::{build_client, build_from_policy};
use rust_req::error::{classify, failure_with, ErrorKind, TransportFault};
use rust_req::exchange::{Exchange, ExchangeEvent, HttpResult, NextStep, ResponseHead};
use rust_req::options::{redirect_rule, resolve, RedirectRule, RequestOptions};
use rust_req::request::{batch_requests, copy_headers, Method, RequestSpec};

fn fault(timed_out: bool, connect_failed: bool, message: &str) -> TransportFault {
    TransportFault { timed_out, connect_failed, message: message.to_string() }
}

fn header(name: &str, value: &str) -> (String, String) {
    (name.to_string(), value.to_string())
}

fn answered(status: u16, body: &[u8]) -> HttpResult {
    let e = Exchange::start();
    let e = e.advance(ExchangeEvent::ResponseArrived(ResponseHead {
        status,
        headers: vec![header("content-type", "text/plain")],
    }));
    e.advance(ExchangeEvent::BodyArrived(body.to_vec())).outcome().unwrap()
}

fn failed_at_send(f: TransportFault) -> HttpResult {
    Exchange::start().advance(ExchangeEvent::Failed(f)).outcome().unwrap()
}

#[test]
fn absent_options_resolve_to_defaults() {
    let p = resolve(&RequestOptions::unset());
    assert_eq!(p.timeout_millis, 30000);
    assert!(p.proxy_url.is_none());
    assert!(p.follow_redirects);
    assert_eq!(p.max_redirects, 10);
}

#[test]
fn default_options_resolve_as_absent_ones() {
    let a = resolve(&RequestOptions::default());
    let b = resolve(&RequestOptions::unset());
    assert_eq!(a.timeout_millis, b.timeout_millis);
    assert_eq!(a.proxy_url, b.proxy_url);
    assert_eq!(a.follow_redirects, b.follow_redirects);
    assert_eq!(a.max_redirects, b.max_redirects);
}

#[test]
fn given_options_are_kept() {
    let o = RequestOptions {
        timeout_millis: Some(100),
        proxy_url: Some("http://proxy.local:3128".to_string()),
        follow_redirects: Some(false),
        max_redirects: Some(3),
    };
    let p = resolve(&o);
    assert_eq!(p.timeout_millis, 100);
    assert_eq!(p.proxy_url.as_deref(), Some("http://proxy.local:3128"));
    assert!(!p.follow_redirects);
    assert_eq!(p.max_redirects, 3);
}

#[test]
fn unfollowed_redirects_give_no_rule_to_follow() {
    let mut o = RequestOptions::unset();
    o.follow_redirects = Some(false);
    o.max_redirects = Some(5);
    assert_eq!(redirect_rule(&resolve(&o)), RedirectRule::Never);
}

#[test]
fn followed_redirects_are_capped() {
    assert_eq!(redirect_rule(&resolve(&RequestOptions::unset())), RedirectRule::UpTo(10));
    let mut o = RequestOptions::unset();
    o.max_redirects = Some(2);
    assert_eq!(redirect_rule(&resolve(&o)), RedirectRule::UpTo(2));
}

#[test]
fn redirect_status_is_returned_as_success() {
    match answered(302, b"") {
        HttpResult::Success(r) => assert_eq!(r.status, 302),
        HttpResult::Failure(_) => panic!("a 3xx answer is a success"),
    }
}

#[test]
fn classification_order() {
    assert_eq!(classify(&fault(true, true, "x")), ErrorKind::Timeout);
    assert_eq!(classify(&fault(true, false, "x")), ErrorKind::Timeout);
    assert_eq!(classify(&fault(false, true, "x")), ErrorKind::NetworkError);
    assert_eq!(classify(&fault(false, false, "x")), ErrorKind::RequestError);
}

#[test]
fn unreachable_address_times_out() {
    match failed_at_send(fault(true, false, "operation timed out")) {
        HttpResult::Failure(f) => {
            assert_eq!(f.kind, ErrorKind::Timeout);
            assert_eq!(f.detail, "Request error: operation timed out");
        }
        HttpResult::Success(_) => panic!("a timeout is a failure"),
    }
}

#[test]
fn refused_connection_is_network_error() {
    match failed_at_send(fault(false, true, "connection refused")) {
        HttpResult::Failure(f) => assert_eq!(f.kind, ErrorKind::NetworkError),
        HttpResult::Success(_) => panic!("a refused connection is a failure"),
    }
}

#[test]
fn server_error_status_is_success() {
    match answered(500, b"internal trouble") {
        HttpResult::Success(r) => {
            assert_eq!(r.status, 500);
            assert_eq!(r.body, b"internal trouble".to_vec());
            assert_eq!(r.headers, vec![header("content-type", "text/plain")]);
        }
        HttpResult::Failure(_) => panic!("a 500 answer is a success"),
    }
}

#[test]
fn body_failure_is_classified() {
    let e = Exchange::start()
        .advance(ExchangeEvent::ResponseArrived(ResponseHead { status: 200, headers: vec![] }));
    assert_eq!(e.next_step(), NextStep::ReadBody);
    let e = e.advance(ExchangeEvent::Failed(fault(false, false, "stream closed")));
    assert_eq!(e.next_step(), NextStep::Deliver);
    match e.outcome().unwrap() {
        HttpResult::Failure(f) => {
            assert_eq!(f.kind, ErrorKind::RequestError);
            assert_eq!(f.detail, "Body error: stream closed");
        }
        HttpResult::Success(_) => panic!("a body failure is a failure"),
    }
}

#[test]
fn exchange_steps_in_order() {
    let e = Exchange::start();
    assert_eq!(e.next_step(), NextStep::Send);
    let e = e.advance(ExchangeEvent::BodyArrived(vec![1]));
    assert_eq!(e.next_step(), NextStep::Send);
    assert!(e.outcome().is_none());
}

#[test]
fn batch_keeps_input_order_when_slowest_is_first() {
    let mut c = BatchCollector::new(3);
    // Completion order: fastest (last URL) first, slowest (first URL) last.
    c.record(2, answered(204, b"fast"));
    c.record(1, answered(201, b"middle"));
    assert!(!c.is_complete());
    c.record(0, answered(200, b"slow"));
    assert!(c.is_complete());
    let out = c.finish().unwrap();
    assert_eq!(out.len(), 3);
    let statuses: Vec<u16> = out
        .iter()
        .map(|r| match r {
            HttpResult::Success(s) => s.status,
            HttpResult::Failure(_) => 0,
        })
        .collect();
    assert_eq!(statuses, vec![200, 201, 204]);
}

#[test]
fn malformed_url_fails_alone_in_batch() {
    let mut c = BatchCollector::new(3);
    c.record(0, answered(200, b"a"));
    c.record(1, failed_at_send(fault(false, false, "builder error: relative URL without a base")));
    c.record(2, answered(200, b"c"));
    let out = c.finish().unwrap();
    assert_eq!(out.len(), 3);
    assert!(matches!(out[0], HttpResult::Success(_)));
    match &out[1] {
        HttpResult::Failure(f) => assert_eq!(f.kind, ErrorKind::RequestError),
        HttpResult::Success(_) => panic!("a malformed URL is a failure"),
    }
    assert!(matches!(out[2], HttpResult::Success(_)));
}

#[test]
fn incomplete_batch_has_no_outcome() {
    let mut c = BatchCollector::new(2);
    assert_eq!(c.len(), 2);
    c.record(1, answered(200, b""));
    assert!(c.finish().is_none());
}

#[test]
fn empty_batch_is_complete() {
    let c = BatchCollector::new(0);
    assert!(c.is_complete());
    assert_eq!(c.finish().unwrap().len(), 0);
}

#[test]
fn aborted_task_fails_its_position_only() {
    let mut c = BatchCollector::new(2);
    c.record(0, answered(200, b""));
    c.record_aborted(1, "task panicked");
    let out = c.finish().unwrap();
    assert!(matches!(out[0], HttpResult::Success(_)));
    match &out[1] {
        HttpResult::Failure(f) => {
            assert_eq!(f.kind, ErrorKind::RequestError);
            assert_eq!(f.detail, "Task error: task panicked");
        }
        HttpResult::Success(_) => panic!("an aborted task is a failure"),
    }
}

#[test]
fn headers_are_sent_as_given() {
    let headers = vec![header("X-B", "2"), header("x-a", "1"), header("X-B", "3")];
    let r = RequestSpec::get("http://h/".to_string(), copy_headers(&headers));
    assert_eq!(r.method, Method::Get);
    assert_eq!(r.headers, headers);
    assert!(r.body.is_none());
    let p = RequestSpec::post("http://h/".to_string(), copy_headers(&headers), b"hi".to_vec());
    assert_eq!(p.method, Method::Post);
    assert_eq!(p.headers, headers);
    assert_eq!(p.body, Some(b"hi".to_vec()));
}

#[test]
fn batch_requests_follow_input_order() {
    let urls = vec!["http://a/".to_string(), "not a url".to_string(), "http://c/".to_string()];
    let headers = vec![header("accept", "*/*")];
    let reqs = batch_requests(&urls, &headers);
    assert_eq!(reqs.len(), 3);
    for (r, u) in reqs.iter().zip(urls.iter()) {
        assert_eq!(r.method, Method::Get);
        assert_eq!(&r.url, u);
        assert_eq!(r.headers, headers);
        assert!(r.body.is_none());
    }
    assert!(batch_requests(&vec![], &headers).is_empty());
}

#[test]
fn failure_detail_joins_prefix_and_text() {
    let f = failure_with(ErrorKind::RuntimeError, "Runtime error: ", "no threads");
    assert_eq!(f.kind, ErrorKind::RuntimeError);
    assert_eq!(f.detail, "Runtime error: no threads");
}

#[test]
fn refused_proxy_is_invalid_proxy() {
    let mut o = RequestOptions::unset();
    o.proxy_url = Some("http://".to_string());
    match build_client(&o) {
        Err(e) => {
            assert_eq!(e.kind, ErrorKind::InvalidProxy);
            assert!(e.detail.starts_with("Client error: "));
        }
        Ok(_) => panic!("an empty proxy host is refused"),
    }
}

#[test]
fn accepted_proxy_builds_a_client() {
    let mut o = RequestOptions::unset();
    o.proxy_url = Some("http://proxy.local:3128".to_string());
    o.timeout_millis = Some(100);
    let c = build_client(&o).ok().expect("a well-formed proxy is accepted");
    assert_eq!(c.policy().timeout_millis, 100);
    assert_eq!(c.policy().proxy_url.as_deref(), Some("http://proxy.local:3128"));
}

#[test]
fn client_keeps_its_policy() {
    let mut o = RequestOptions::unset();
    o.follow_redirects = Some(false);
    let c = build_from_policy(resolve(&o)).ok().expect("no proxy, so the build succeeds");
    assert!(!c.policy().follow_redirects);
    assert_eq!(c.policy().max_redirects, 10);
}
