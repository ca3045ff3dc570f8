use rust_browser_control::config::{BrowserConfig, Environment, UrlParts};
use rust_browser_control::error::ErrorOf;

fn test_config() -> BrowserConfig {
    BrowserConfig {
        socket_dir: b"/tmp/codex-browser-use".to_vec(),
        sessions_root: b"sessions".to_vec(),
        session_id: "test-task".to_owned(),
        download_dir: b"downloads".to_vec(),
        screenshot_dir: b"screenshots".to_vec(),
        allowed_hosts: vec!["example.com".to_owned()],
    }
}

fn environment() -> Environment {
    Environment {
        home: Some(b"/home/me".to_vec()),
        pictures_dir: None,
        session_id: None,
        thread_id: Some("thread".to_owned()),
        socket_dir: None,
        sessions_root: None,
        download_dir: None,
        allowed_hosts: None,
    }
}

#[test]
fn validates_subdomains_without_suffix_confusion() {
    let config = test_config();
    assert!(config.validate_url("https://www.example.com/").is_ok());
    assert!(config.validate_url("https://evil-example.com/").is_err());
    assert!(config.validate_url("file:///etc/passwd").is_err());
}

#[test]
fn wildcard_allows_http_but_not_local_file_urls() {
    let mut config = test_config();
    config.allowed_hosts = vec!["*".to_owned()];
    assert!(config.validate_url("https://openai.com/").is_ok());
    assert!(config.validate_url("http://127.0.0.1:3000/").is_ok());
    assert!(config.validate_url("file:///etc/passwd").is_err());
}

#[test]
fn an_allowed_url_comes_back_in_its_final_form() {
    let config = test_config();
    let parts = config.validate_url("HTTPS://WWW.Example.COM").unwrap();
    assert_eq!(parts.scheme, "https");
    assert_eq!(parts.host, Some("www.example.com".to_owned()));
    assert_eq!(parts.href, "https://www.example.com/");
    let parts = config.validate_url("http://example.com:8080/a b?q=1#f").unwrap();
    assert_eq!(parts.href, "http://example.com:8080/a%20b?q=1#f");
}

#[test]
fn a_refused_url_tells_why() {
    let config = test_config();
    assert_eq!(
        config.validate_url("not a url").unwrap_err(),
        ErrorOf::InvalidUrl("not a url".to_owned())
    );
    assert_eq!(config.validate_url("ftp://example.com/").unwrap_err(), ErrorOf::NotHttp);
    assert_eq!(config.validate_url("file:///etc/passwd").unwrap_err(), ErrorOf::NotHttp);
    assert_eq!(
        config.validate_url("https://evil-example.com/").unwrap_err(),
        ErrorOf::HostNotAllowed {
            host: "evil-example.com".to_owned(),
            configured: "example.com".to_owned(),
        }
    );
}

#[test]
fn a_url_is_judged_by_its_parts() {
    let mut config = test_config();
    config.allowed_hosts = vec!["one.org".to_owned(), "two.org".to_owned()];
    let parts = |scheme: &str, host: Option<&str>| {
        Some(UrlParts {
            scheme: scheme.to_owned(),
            host: host.map(|h| h.to_owned()),
            href: "x".to_owned(),
        })
    };
    assert!(config.judge_url("i", parts("http", Some("A.TWO.org"))).is_ok());
    assert_eq!(
        config.judge_url("i", parts("https", None)).unwrap_err(),
        ErrorOf::NoHost
    );
    assert_eq!(
        config.judge_url("i", parts("https", Some("Three.org"))).unwrap_err(),
        ErrorOf::HostNotAllowed {
            host: "three.org".to_owned(),
            configured: "one.org, two.org".to_owned(),
        }
    );
    assert_eq!(
        config.judge_url("i", None).unwrap_err(),
        ErrorOf::InvalidUrl("i".to_owned())
    );
}

#[test]
fn the_environment_may_leave_almost_everything_out() {
    let config = BrowserConfig::from_env(environment()).unwrap();
    assert_eq!(config.socket_dir, b"/tmp/codex-browser-use");
    assert_eq!(config.sessions_root, b"/home/me/.codex/sessions");
    assert_eq!(config.session_id, "thread");
    assert_eq!(config.download_dir, b"/home/me/Downloads/RustBrowserControl");
    assert_eq!(config.screenshot_dir, b"/home/me/Pictures/RustBrowserControl");
    assert_eq!(config.allowed_hosts, vec!["*".to_owned()]);
}

#[test]
fn the_environment_may_set_everything() {
    let config = BrowserConfig::from_env(Environment {
        home: Some(b"/home/me/".to_vec()),
        pictures_dir: Some(b"/pics".to_vec()),
        session_id: Some("session".to_owned()),
        thread_id: Some("thread".to_owned()),
        socket_dir: Some(b"/sockets".to_vec()),
        sessions_root: Some(b"/sessions".to_vec()),
        download_dir: Some(b"/down".to_vec()),
        allowed_hosts: Some(" .Example.com, ,..B.org ,c ".to_owned()),
    })
    .unwrap();
    assert_eq!(config.socket_dir, b"/sockets");
    assert_eq!(config.sessions_root, b"/sessions");
    assert_eq!(config.session_id, "session");
    assert_eq!(config.download_dir, b"/down");
    assert_eq!(config.screenshot_dir, b"/pics/RustBrowserControl");
    assert_eq!(
        config.allowed_hosts,
        vec!["example.com".to_owned(), "b.org".to_owned(), "c".to_owned()]
    );
}

#[test]
fn a_home_that_ends_in_a_slash_is_joined_without_another() {
    let mut env = environment();
    env.home = Some(b"/home/me/".to_vec());
    let config = BrowserConfig::from_env(env).unwrap();
    assert_eq!(config.sessions_root, b"/home/me/.codex/sessions");
}

#[test]
fn an_environment_that_lacks_something_is_refused() {
    let mut env = environment();
    env.home = None;
    assert_eq!(BrowserConfig::from_env(env).unwrap_err(), ErrorOf::NoHome);
    let mut env = environment();
    env.thread_id = None;
    assert_eq!(BrowserConfig::from_env(env).unwrap_err(), ErrorOf::NoSession);
    let mut env = environment();
    env.allowed_hosts = Some(" , .. ,".to_owned());
    assert_eq!(BrowserConfig::from_env(env).unwrap_err(), ErrorOf::NoHosts);
}

#[test]
fn the_first_directory_that_is_missing_is_told() {
    let config = test_config();
    assert!(config.ensure_dirs(true, true).is_ok());
    assert_eq!(
        config.ensure_dirs(false, true).unwrap_err().message(),
        "create download directory downloads"
    );
    assert_eq!(
        config.ensure_dirs(false, false).unwrap_err().message(),
        "create download directory downloads"
    );
    assert_eq!(
        config.ensure_dirs(true, false).unwrap_err().message(),
        "create screenshot directory screenshots"
    );
}

#[test]
fn a_path_that_is_not_unicode_is_shown_lossily() {
    let mut config = test_config();
    config.download_dir = b"/d\xff".to_vec();
    assert_eq!(
        config.ensure_dirs(false, true).unwrap_err().message(),
        "create download directory /d\u{fffd}"
    );
}

#[test]
fn the_turn_that_is_set_goes_first() {
    let config = test_config();
    let some = |s: &str| Some(s.to_owned());
    assert_eq!(config.current_turn_id(some("a"), some("b"), some("c")), "a");
    assert_eq!(config.current_turn_id(None, some("b"), some("c")), "b");
    assert_eq!(config.current_turn_id(None, None, some("c")), "c");
    assert_eq!(config.current_turn_id(None, None, None), "rust-browser-control");
}

#[test]
fn every_http_host_is_allowed_by_default() {
    let config = BrowserConfig::from_env(environment()).unwrap();
    assert!(config.validate_url("http://anything.at.all/").is_ok());
    assert!(config.validate_url("https://[::1]/").is_ok());
    assert_eq!(config.validate_url("data:text/plain,x").unwrap_err(), ErrorOf::NotHttp);
}

#[test]
fn a_clone_says_the_same() {
    let config = BrowserConfig::from_env(environment()).unwrap();
    let copy = config.clone();
    assert_eq!(copy.socket_dir, config.socket_dir);
    assert_eq!(copy.sessions_root, config.sessions_root);
    assert_eq!(copy.session_id, config.session_id);
    assert_eq!(copy.download_dir, config.download_dir);
    assert_eq!(copy.screenshot_dir, config.screenshot_dir);
    assert_eq!(copy.allowed_hosts, config.allowed_hosts);
}
