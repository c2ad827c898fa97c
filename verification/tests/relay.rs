use dhmz_relay::relay::{relay_response, FetchOutcome};

#[test]
fn upstream_ok_body_is_relayed() {
    let r = relay_response(FetchOutcome::Reply {
        status: 200,
        body: Some(b"<xml>data</xml>".to_vec()),
    });
    assert_eq!(r.status, 200);
    assert_eq!(r.body, b"<xml>data</xml>".to_vec());
    assert_eq!(r.content_type.as_deref(), Some("text/xml"));
    assert_eq!(r.allow_origin.as_deref(), Some("*"));
}

#[test]
fn upstream_error_status_is_not_propagated() {
    let r = relay_response(FetchOutcome::Reply {
        status: 500,
        body: Some(b"error page".to_vec()),
    });
    assert_eq!(r.status, 200);
    assert_eq!(r.body, b"error page".to_vec());
    assert_eq!(r.content_type.as_deref(), Some("text/xml"));
    assert_eq!(r.allow_origin.as_deref(), Some("*"));
}

#[test]
fn upstream_not_found_status_is_not_propagated() {
    let r = relay_response(FetchOutcome::Reply {
        status: 404,
        body: Some(b"missing".to_vec()),
    });
    assert_eq!(r.status, 200);
    assert_eq!(r.body, b"missing".to_vec());
}

#[test]
fn transport_failure_is_bad_gateway() {
    let r = relay_response(FetchOutcome::TransportFailure);
    assert_eq!(r.status, 502);
    assert!(r.body.is_empty());
    assert!(r.content_type.is_none());
    assert!(r.allow_origin.is_none());
}

#[test]
fn unreadable_body_degrades_to_empty_success() {
    let r = relay_response(FetchOutcome::Reply { status: 200, body: None });
    assert_eq!(r.status, 200);
    assert!(r.body.is_empty());
    assert_eq!(r.content_type.as_deref(), Some("text/xml"));
    assert_eq!(r.allow_origin.as_deref(), Some("*"));
}

#[test]
fn empty_body_is_relayed_empty() {
    let r = relay_response(FetchOutcome::Reply { status: 200, body: Some(Vec::new()) });
    assert_eq!(r.status, 200);
    assert!(r.body.is_empty());
    assert_eq!(r.content_type.as_deref(), Some("text/xml"));
}

#[test]
fn many_independent_requests_each_map_correctly() {
    let n: usize = 50;
    for i in 0..n {
        let body = format!("payload {}", i).into_bytes();
        let ok = relay_response(FetchOutcome::Reply {
            status: 200,
            body: Some(body.clone()),
        });
        assert_eq!(ok.status, 200);
        assert_eq!(ok.body, body);
        let failed = relay_response(FetchOutcome::TransportFailure);
        assert_eq!(failed.status, 502);
        assert!(failed.body.is_empty());
    }
}
