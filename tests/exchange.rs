use edge_fetch::{
    all_routes, build, build_for_style, dispatch, Action, Exchange, FetchError, Header, Method,
    Phase, RedirectPolicy, Route, Style, Surface, OK_STATUS,
};

const UPSTREAM: &str = "https://www.cloudflare.com/ips-v4";

fn sent_request(action: &Action) -> &edge_fetch::RequestDescriptor {
    match action {
        Action::Send { request, .. } => request,
        other => panic!("expected a send, got {:?}", other),
    }
}

fn serve(route: Route, body: Vec<u8>) -> Action {
    let (mut exchange, action) = Exchange::start(route, UPSTREAM);
    assert!(matches!(action, Action::Send { .. }));
    assert_eq!(exchange.phase, Phase::AwaitingResponse);
    let next = exchange.on_response(Ok(()));
    assert!(matches!(next, Action::ReadBody));
    assert_eq!(exchange.phase, Phase::AwaitingBody);
    let done = exchange.on_body(Ok(body));
    assert_eq!(exchange.phase, Phase::Finished);
    done
}

#[test]
fn ergonomic_by_url_relays_upstream_body() {
    let route = dispatch("/ergonomic/by-url").unwrap();
    assert_eq!(route, Route { surface: Surface::Ergonomic, style: Style::ByUrl });
    let body = b"1.1.1.1/32\n1.0.0.0/24\n".to_vec();
    match serve(route, body.clone()) {
        Action::Reply { status, body: out } => {
            assert_eq!(status, 200);
            assert_eq!(out, body);
        }
        other => panic!("expected a reply, got {:?}", other),
    }
}

#[test]
fn raw_with_init_unreachable_upstream_fails() {
    let route = dispatch("/raw/by-request-with-init").unwrap();
    assert_eq!(route, Route { surface: Surface::Raw, style: Style::ByRequestWithInit });
    let (mut exchange, action) = Exchange::start(route, UPSTREAM);
    assert!(matches!(action, Action::Send { surface: Surface::Raw, .. }));
    let next = exchange.on_response(Err(FetchError::NetworkError));
    assert!(matches!(next, Action::Fail(FetchError::NetworkError)));
    assert_eq!(exchange.phase, Phase::Finished);
}

#[test]
fn malformed_response_fails_with_protocol_error() {
    let route = dispatch("/ergonomic/by-request").unwrap();
    let (mut exchange, _) = Exchange::start(route, UPSTREAM);
    let next = exchange.on_response(Err(FetchError::ProtocolError));
    assert!(matches!(next, Action::Fail(FetchError::ProtocolError)));
}

#[test]
fn broken_body_fails_with_body_read_error() {
    let route = dispatch("/raw/by-url").unwrap();
    let (mut exchange, _) = Exchange::start(route, UPSTREAM);
    let _ = exchange.on_response(Ok(()));
    let done = exchange.on_body(Err(FetchError::BodyReadError));
    assert!(matches!(done, Action::Fail(FetchError::BodyReadError)));
    assert_eq!(exchange.phase, Phase::Finished);
}

#[test]
fn unparsable_url_is_rejected_before_any_call() {
    assert!(matches!(
        build("not a url", Method::Get, Vec::new(), RedirectPolicy::Follow),
        Err(FetchError::InvalidUrl)
    ));
    assert!(matches!(build_for_style(Style::ByRequest, ""), Err(FetchError::InvalidUrl)));
    for route in all_routes() {
        let (exchange, action) = Exchange::start(route, "://missing-scheme");
        assert!(matches!(action, Action::Fail(FetchError::InvalidUrl)));
        assert_eq!(exchange.phase, Phase::Finished);
    }
}

#[test]
fn valid_url_is_kept_as_given() {
    let headers = vec![Header { name: "accept".to_string(), value: "text/plain".to_string() }];
    let d = build(UPSTREAM, Method::Post, headers, RedirectPolicy::Manual).unwrap();
    assert_eq!(d.url, UPSTREAM);
    assert_eq!(d.method, Method::Post);
    assert_eq!(d.redirect, RedirectPolicy::Manual);
    assert_eq!(d.headers.len(), 1);
    assert_eq!(d.headers[0].name, "accept");
    assert_eq!(d.headers[0].value, "text/plain");
}

#[test]
fn unknown_paths_are_not_found() {
    for path in ["/", "", "/ergonomic", "/ergonomic/by-url/", "/ERGONOMIC/by-url", "/raw/by-url?x=1", "/sys"] {
        assert!(matches!(dispatch(path), Err(FetchError::NotFound)), "{}", path);
    }
}

#[test]
fn every_route_is_found_by_its_path() {
    let routes = all_routes();
    assert_eq!(routes.len(), 6);
    for route in routes {
        assert_eq!(dispatch(route.path()), Ok(route));
    }
    assert_eq!(
        Route { surface: Surface::Raw, style: Style::ByRequest }.path(),
        "/raw/by-request"
    );
}

#[test]
fn styles_describe_their_requests() {
    let by_url = build_for_style(Style::ByUrl, UPSTREAM).unwrap();
    assert!(by_url.headers.is_empty());
    let by_request = build_for_style(Style::ByRequest, UPSTREAM).unwrap();
    assert!(by_request.headers.is_empty());
    let with_init = build_for_style(Style::ByRequestWithInit, UPSTREAM).unwrap();
    assert_eq!(with_init.headers.len(), 1);
    assert_eq!(with_init.headers[0].name, "example-header");
    assert_eq!(with_init.headers[0].value, "example-value");
    for d in [by_url, by_request, with_init] {
        assert_eq!(d.url, UPSTREAM);
        assert_eq!(d.method, Method::Get);
        assert_eq!(d.redirect, RedirectPolicy::Follow);
    }
}

#[test]
fn all_styles_yield_identical_bodies() {
    let body = b"173.245.48.0/20\n103.21.244.0/22\n".to_vec();
    let mut replies = Vec::new();
    for route in all_routes() {
        let (_, action) = Exchange::start(route, UPSTREAM);
        assert_eq!(sent_request(&action).url, UPSTREAM);
        match serve(route, body.clone()) {
            Action::Reply { status, body: out } => replies.push((status, out)),
            other => panic!("expected a reply, got {:?}", other),
        }
    }
    assert_eq!(replies.len(), 6);
    for (status, out) in replies {
        assert_eq!(status, OK_STATUS);
        assert_eq!(out, body);
    }
}

#[test]
fn relayed_bytes_are_unchanged() {
    let route = dispatch("/ergonomic/by-request-with-init").unwrap();
    let body: Vec<u8> = vec![0, 255, 0xC3, 0x28, b'\n', b'\r', 0];
    match serve(route, body.clone()) {
        Action::Reply { body: out, .. } => assert_eq!(out, body),
        other => panic!("expected a reply, got {:?}", other),
    }
    match serve(route, Vec::new()) {
        Action::Reply { status, body: out } => {
            assert_eq!(status, 200);
            assert!(out.is_empty());
        }
        other => panic!("expected a reply, got {:?}", other),
    }
}

#[test]
fn repeated_requests_fetch_anew() {
    let route = dispatch("/raw/by-request").unwrap();
    let (_, first_send) = Exchange::start(route, UPSTREAM);
    let (_, second_send) = Exchange::start(route, UPSTREAM);
    assert_eq!(sent_request(&first_send).url, sent_request(&second_send).url);
    let first = serve(route, b"first\n".to_vec());
    let second = serve(route, b"second\n".to_vec());
    assert!(matches!(first, Action::Reply { ref body, .. } if body.as_slice() == b"first\n"));
    assert!(matches!(second, Action::Reply { ref body, .. } if body.as_slice() == b"second\n"));
}
