use antenna_status::modem_utils::{DocumentKind, Request};
use antenna_status::network_utils::{http_request, HttpRequest, HTTP_TIMEOUT_MS};

fn pair(name: &str, value: &str) -> (String, String) {
    (String::from(name), String::from(value))
}

fn xml_request(query: &str, session: Option<(&str, &str)>) -> Request {
    Request {
        kind: DocumentKind::Xml,
        query: String::from(query),
        session_token: session.map(|(s, t)| (String::from(s), String::from(t))),
    }
}

#[test]
fn json_request_has_no_headers() {
    let request = Request {
        kind: DocumentKind::Json,
        query: String::from("/model.json?internalapi=1"),
        session_token: None,
    };
    assert_eq!(
        http_request("192.168.1.1", &request),
        Some(HttpRequest {
            url: String::from("http://192.168.1.1/model.json?internalapi=1"),
            headers: vec![],
            connect_timeout_ms: 3000,
        })
    );
    assert_eq!(HTTP_TIMEOUT_MS, 3000);
}

#[test]
fn xml_request_accepts_anything() {
    assert_eq!(
        http_request("192.168.8.1", &xml_request("/api/webserver/SesTokInfo", None)),
        Some(HttpRequest {
            url: String::from("http://192.168.8.1/api/webserver/SesTokInfo"),
            headers: vec![pair("Accept", "*/*")],
            connect_timeout_ms: 3000,
        })
    );
}

#[test]
fn xml_request_with_a_session_carries_it() {
    let request = xml_request("/api/device/signal", Some(("SessionID=abc", "tok")));
    assert_eq!(
        http_request("modem.local:8080", &request),
        Some(HttpRequest {
            url: String::from("http://modem.local:8080/api/device/signal"),
            headers: vec![
                pair("Accept", "*/*"),
                pair("Host", "modem.local:8080"),
                pair("X-Requested-With", "XMLHttpRequest"),
                pair("Cookie", "SessionID=abc"),
                pair("__RequestVerificationToken", "tok"),
            ],
            connect_timeout_ms: 3000,
        })
    );
}

#[test]
fn a_json_request_never_carries_a_session() {
    let request = Request {
        kind: DocumentKind::Json,
        query: String::from("/model.json"),
        session_token: Some((String::from("s"), String::from("t"))),
    };
    assert_eq!(http_request("192.168.1.1", &request).map(|r| r.headers), Some(vec![]));
}

#[test]
fn no_request_for_a_host_that_is_none() {
    for host in ["", "bad host", "a/b", "192.168.1.1/x", "[::1", "host?x"] {
        assert_eq!(http_request(host, &xml_request("/api/device/signal", None)), None, "host {host:?}");
    }
    assert_eq!(http_request("192.168.8.1", &xml_request("/a b", None)), None);
}

#[test]
fn the_url_is_what_the_http_crate_builds() {
    for (host, query) in [
        ("192.168.8.1", "/api/device/signal"),
        ("MODEM.example", "/model.json?internalapi=1"),
        ("[::1]:80", "/"),
        ("192.168.1.1", ""),
        ("a b", "/x"),
    ] {
        let expected = http::Uri::builder()
            .scheme("http")
            .authority(host)
            .path_and_query(query)
            .build()
            .ok()
            .map(|uri| uri.to_string());
        assert_eq!(
            http_request(host, &xml_request(query, None)).map(|r| r.url),
            expected,
            "host {host:?}, query {query:?}"
        );
    }
}
