use url_probe::{build_url, status_text, AbsoluteUrl, UrlState};

fn url(domain: &str, path: &str) -> AbsoluteUrl {
    build_url(domain, path).expect("the path resolves")
}

#[test]
fn accessible_is_displayed_with_its_url() {
    let state = UrlState::Accessible(url("example.com", "/"));
    assert_eq!(state.to_string(), "Accessible: http://example.com/");
}

#[test]
fn bad_status_is_displayed_with_its_url_and_status() {
    let state = UrlState::BadStatus(url("example.com", "/missing"), 404);
    assert_eq!(state.to_string(), "BadStatus: http://example.com/missing 404");
}

#[test]
fn status_is_displayed_in_decimal() {
    let cases = [
        (0u16, "0"),
        (7, "7"),
        (10, "10"),
        (99, "99"),
        (100, "100"),
        (204, "204"),
        (299, "299"),
        (500, "500"),
        (1000, "1000"),
        (9090, "9090"),
        (65535, "65535"),
    ];
    for (status, text) in cases {
        assert_eq!(status_text(status), text);
        let state = UrlState::BadStatus(url("example.com", "/"), status);
        assert_eq!(state.to_string(), format!("BadStatus: http://example.com/ {}", text));
    }
}

#[test]
fn connection_failed_is_displayed_with_its_url() {
    let state = UrlState::ConnectionFailed(url("nohost.invalid", "/"));
    assert_eq!(state.to_string(), "ConnectionFailed: http://nohost.invalid/");
}

#[test]
fn timed_out_is_displayed_with_its_url() {
    let state = UrlState::TimedOut(url("slow.test", "/"));
    assert_eq!(state.to_string(), "TimedOut: http://slow.test/");
}

#[test]
fn malformed_is_displayed_with_the_path_as_given() {
    let state = UrlState::Malformed(String::from(" http://[::1 "));
    assert_eq!(state.to_string(), "Malformed:  http://[::1 ");
}

#[test]
fn url_of_a_state_is_its_payload() {
    let u = url("example.com", "/a");
    assert_eq!(UrlState::Accessible(u.clone()).url(), Some(&u));
    assert_eq!(UrlState::BadStatus(u.clone(), 301).url(), Some(&u));
    assert_eq!(UrlState::ConnectionFailed(u.clone()).url(), Some(&u));
    assert_eq!(UrlState::TimedOut(u.clone()).url(), Some(&u));
    assert_eq!(UrlState::Malformed(String::from("/a")).url(), None);
}

#[test]
fn clone_of_a_state_is_equal() {
    let states = [
        UrlState::Accessible(url("example.com", "/")),
        UrlState::BadStatus(url("example.com", "/"), 404),
        UrlState::ConnectionFailed(url("example.com", "/")),
        UrlState::TimedOut(url("example.com", "/")),
        UrlState::Malformed(String::from("x")),
    ];
    for state in &states {
        assert_eq!(&state.clone(), state);
    }
    assert_ne!(states[0], states[3]);
}
