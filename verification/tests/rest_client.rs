use cdp_lite::error::CdpError;
use cdp_lite::rest_client::{
    browser_websocket_url, list_endpoint, page_websocket_url, select_target, version_endpoint,
    ChromeTarget,
};

fn t(ty: &str, url: &str, ws: &str) -> ChromeTarget {
    ChromeTarget {
        title: url.to_string(),
        target_type: ty.to_string(),
        url: url.to_string(),
        web_socket_debugger_url: ws.to_string(),
    }
}

#[test]
fn skips_devtools_even_when_listed_first() {
    let targets = vec![
        t("page", "devtools://devtools/bundled/devtools_app.html", "ws://x/devtools"),
        t("page", "https://m.baidu.com/", "ws://x/baidu"),
    ];
    assert_eq!(
        select_target(&targets).map(|t| t.url.as_str()),
        Some("https://m.baidu.com/"),
    );
}

#[test]
fn prefers_real_web_page_over_chrome_internal() {
    let targets = vec![
        t("page", "chrome://newtab/", "ws://x/newtab"),
        t("page", "devtools://devtools/bundled/devtools_app.html", "ws://x/devtools"),
        t("page", "https://example.com/", "ws://x/example"),
    ];
    assert_eq!(
        select_target(&targets).map(|t| t.url.as_str()),
        Some("https://example.com/"),
    );
}

#[test]
fn accepts_http_https_file_and_about_schemes() {
    for url in [
        "http://example.com/",
        "https://example.com/",
        "file:///tmp/index.html",
        "about:blank",
    ] {
        let targets = vec![t("page", url, "ws://x/page")];
        assert_eq!(
            select_target(&targets).map(|t| t.url.as_str()),
            Some(url),
            "scheme {url} should be accepted as a web page",
        );
    }
}

#[test]
fn falls_back_to_chrome_internal_when_no_web_page() {
    let targets = vec![
        t("page", "devtools://devtools/bundled/devtools_app.html", "ws://x/devtools"),
        t("page", "chrome://newtab/", "ws://x/newtab"),
    ];
    assert_eq!(
        select_target(&targets).map(|t| t.url.as_str()),
        Some("chrome://newtab/"),
    );
}

#[test]
fn returns_none_when_only_devtools() {
    let targets = vec![t(
        "page",
        "devtools://devtools/bundled/devtools_app.html",
        "ws://x/devtools",
    )];
    assert!(select_target(&targets).is_none());
}

#[test]
fn ignores_non_page_and_empty_ws() {
    let targets = vec![
        t("service_worker", "chrome-extension://abc/sw.js", "ws://x/sw"),
        t("iframe", "https://ads.example/", "ws://x/iframe"),
        t("page", "https://real.example/", ""),
        t("page", "https://good.example/", "ws://x/good"),
    ];
    assert_eq!(
        select_target(&targets).map(|t| t.url.as_str()),
        Some("https://good.example/"),
    );
}

#[test]
fn returns_none_on_empty_list() {
    let targets: Vec<ChromeTarget> = vec![];
    assert!(select_target(&targets).is_none());
}

#[test]
fn single_web_page_still_selected() {
    let targets = vec![t("page", "https://example.com/", "ws://x/example")];
    assert_eq!(
        select_target(&targets).map(|t| t.url.as_str()),
        Some("https://example.com/"),
    );
}

#[test]
fn first_of_several_web_pages_is_selected() {
    let targets = vec![
        t("page", "chrome://newtab/", "ws://x/newtab"),
        t("page", "https://first.example/", "ws://x/first"),
        t("page", "https://second.example/", "ws://x/second"),
    ];
    assert_eq!(
        select_target(&targets).map(|t| t.url.as_str()),
        Some("https://first.example/"),
    );
}

#[test]
fn page_websocket_url_picks_the_selected_endpoint() {
    let targets = vec![
        t("page", "devtools://devtools/bundled/devtools_app.html", "ws://devtools"),
        t("page", "https://m.baidu.com/", "ws://baidu"),
    ];
    let ws = page_websocket_url("127.0.0.1:9222", &targets).expect("should pick a target");
    assert_eq!(ws, "ws://baidu");
}

#[test]
fn page_websocket_url_errors_when_only_devtools() {
    let targets = vec![t("page", "devtools://devtools/bundled/devtools_app.html", "ws://devtools")];
    match page_websocket_url("127.0.0.1:9222", &targets) {
        Err(CdpError::NoPageTargetFound(host)) => assert_eq!(host, "127.0.0.1:9222"),
        other => panic!("expected NoPageTargetFound, got {other:?}"),
    }
}

#[test]
fn browser_websocket_url_returns_the_reported_endpoint() {
    let ws = browser_websocket_url("host:1", "ws://host/devtools/browser/abc".to_string())
        .expect("browser endpoint should be resolved");
    assert_eq!(ws, "ws://host/devtools/browser/abc");
}

#[test]
fn browser_websocket_url_errors_when_endpoint_missing() {
    match browser_websocket_url("host:1", String::new()) {
        Err(CdpError::NoPageTargetFound(host)) => assert_eq!(host, "host:1"),
        other => panic!("expected NoPageTargetFound, got {other:?}"),
    }
}

#[test]
fn endpoints_are_built_from_the_host() {
    assert_eq!(list_endpoint("127.0.0.1:9222"), "http://127.0.0.1:9222/json/list");
    assert_eq!(version_endpoint("127.0.0.1:9222"), "http://127.0.0.1:9222/json/version");
}
