use url_probe::{
    build_url, classify, try_url_status, url_status, AbsoluteUrl, Probe, ProbeEvent, UrlState,
    HTTP_OK, TIMEOUT,
};

fn url(domain: &str, path: &str) -> AbsoluteUrl {
    build_url(domain, path).expect("the path resolves")
}

#[test]
fn status_200_is_accessible() {
    assert_eq!(
        url_status("example.com", "/", ProbeEvent::Response(200)),
        UrlState::Accessible(url("example.com", "/"))
    );
}

#[test]
fn status_404_is_a_bad_status() {
    assert_eq!(
        url_status("example.com", "/missing", ProbeEvent::Response(404)),
        UrlState::BadStatus(url("example.com", "/missing"), 404)
    );
}

#[test]
fn failed_lookup_is_a_failed_connection() {
    assert_eq!(
        url_status("nohost.invalid", "/", ProbeEvent::TransportError),
        UrlState::ConnectionFailed(url("nohost.invalid", "/"))
    );
}

#[test]
fn silent_server_times_out() {
    assert_eq!(
        url_status("slow.test", "/", ProbeEvent::TimerElapsed),
        UrlState::TimedOut(url("slow.test", "/"))
    );
}

#[test]
fn full_url_in_the_path_is_the_one_probed() {
    let state = url_status("example.com", "http://other.test/x", ProbeEvent::Response(200));
    assert_eq!(state.to_string(), "Accessible: http://other.test/x");
    assert_eq!(state, UrlState::Accessible(url("example.com", "http://other.test/x")));
}

#[test]
fn malformed_path_is_reported_verbatim_whatever_is_delivered() {
    let path = "http://[::1";
    let events = [
        ProbeEvent::Response(200),
        ProbeEvent::Response(404),
        ProbeEvent::TransportError,
        ProbeEvent::TimerElapsed,
    ];
    for event in events {
        assert_eq!(
            url_status("example.com", path, event),
            UrlState::Malformed(String::from(path))
        );
    }
}

#[test]
fn text_that_is_no_url_is_malformed_with_its_spaces_kept() {
    let events = [
        ProbeEvent::Response(200),
        ProbeEvent::Response(404),
        ProbeEvent::TransportError,
        ProbeEvent::TimerElapsed,
    ];
    for event in events {
        assert_eq!(
            url_status("example.com", " not a url ", event),
            UrlState::Malformed(String::from(" not a url "))
        );
    }
    assert_eq!(
        url_status("example.com", " not a url ", ProbeEvent::Response(200)).to_string(),
        "Malformed:  not a url "
    );
}

#[test]
fn path_with_a_host_that_could_overflow_the_encoder_is_malformed() {
    let path = format!("//{}/", "\u{e9}".repeat(121));
    assert_eq!(
        url_status("example.com", &path, ProbeEvent::Response(200)),
        UrlState::Malformed(path.clone())
    );
}

#[test]
fn long_path_is_probed() {
    let path = "a".repeat(3856);
    assert_eq!(
        url_status("example.com", &path, ProbeEvent::Response(200)),
        UrlState::Accessible(url("example.com", &path))
    );
    assert_eq!(
        url_status("example.com", &path, ProbeEvent::Response(200)).to_string(),
        format!("Accessible: http://example.com/{}", path)
    );
}

#[test]
fn other_success_statuses_are_bad_statuses() {
    for status in [201u16, 204, 206, 299] {
        assert_eq!(
            url_status("example.com", "/", ProbeEvent::Response(status)),
            UrlState::BadStatus(url("example.com", "/"), status)
        );
    }
}

#[test]
fn redirects_and_errors_are_bad_statuses() {
    for status in [0u16, 100, 199, 301, 302, 400, 500, 503, 65535] {
        assert_eq!(
            classify(url("example.com", "/"), ProbeEvent::Response(status)),
            UrlState::BadStatus(url("example.com", "/"), status)
        );
    }
}

#[test]
fn classify_maps_each_delivery_to_its_state() {
    let u = url("example.com", "/a");
    assert_eq!(classify(u.clone(), ProbeEvent::Response(HTTP_OK)), UrlState::Accessible(u.clone()));
    assert_eq!(classify(u.clone(), ProbeEvent::Response(418)), UrlState::BadStatus(u.clone(), 418));
    assert_eq!(classify(u.clone(), ProbeEvent::TransportError), UrlState::ConnectionFailed(u.clone()));
    assert_eq!(classify(u.clone(), ProbeEvent::TimerElapsed), UrlState::TimedOut(u));
}

#[test]
fn payload_is_the_resolved_url_not_the_path() {
    let events = [
        ProbeEvent::Response(200),
        ProbeEvent::Response(500),
        ProbeEvent::TransportError,
        ProbeEvent::TimerElapsed,
    ];
    for event in events {
        let state = url_status("Example.COM", "a/./b/../c", event);
        assert_eq!(state.url(), Some(&url("Example.COM", "a/./b/../c")));
        assert_eq!(state.url().map(|u| u.as_str()), Some("http://example.com/a/c"));
    }
}

#[test]
fn constants_have_their_documented_values() {
    assert_eq!(HTTP_OK, 200);
    assert_eq!(TIMEOUT, 10);
}

#[test]
fn try_url_status_agrees_with_url_status_on_a_valid_domain() {
    assert_eq!(
        try_url_status("example.com", "/", ProbeEvent::Response(200)),
        Some(url_status("example.com", "/", ProbeEvent::Response(200)))
    );
    assert_eq!(
        try_url_status("example.com", "http://", ProbeEvent::TimerElapsed),
        Some(UrlState::Malformed(String::from("http://")))
    );
}

#[test]
fn try_url_status_refuses_a_domain_that_gives_no_base() {
    assert_eq!(try_url_status("", "/", ProbeEvent::Response(200)), None);
    assert_eq!(try_url_status("exa mple.com", "/", ProbeEvent::TimerElapsed), None);
}

#[test]
fn probe_starts_racing_on_the_resolved_url() {
    let probe = Probe::start("example.com", "/x").expect("the domain is valid");
    assert_eq!(probe.target(), Some(&url("example.com", "/x")));
    assert_eq!(probe.outcome(), None);
}

#[test]
fn probe_of_a_malformed_path_is_finished_at_once() {
    let probe = Probe::start("example.com", "http://").expect("the domain is valid");
    assert_eq!(probe.target(), None);
    assert_eq!(probe.outcome(), Some(UrlState::Malformed(String::from("http://"))));
}

#[test]
fn probe_is_not_started_on_a_domain_that_gives_no_base() {
    assert!(Probe::start("", "/").is_none());
}

#[test]
fn first_delivery_finishes_the_probe() {
    let probe = Probe::start("example.com", "/").expect("the domain is valid");
    let probe = probe.deliver(ProbeEvent::Response(200));
    assert_eq!(probe.target(), None);
    assert_eq!(probe.outcome(), Some(UrlState::Accessible(url("example.com", "/"))));
}

#[test]
fn later_deliveries_are_dropped() {
    let probe = Probe::start("slow.test", "/").expect("the domain is valid");
    let probe = probe
        .deliver(ProbeEvent::TimerElapsed)
        .deliver(ProbeEvent::Response(200))
        .deliver(ProbeEvent::TransportError);
    assert_eq!(probe.outcome(), Some(UrlState::TimedOut(url("slow.test", "/"))));

    let probe = Probe::start("example.com", "/").expect("the domain is valid");
    let probe = probe.deliver(ProbeEvent::Response(503)).deliver(ProbeEvent::TimerElapsed);
    assert_eq!(probe.outcome(), Some(UrlState::BadStatus(url("example.com", "/"), 503)));
}

#[test]
fn deliveries_do_not_change_a_malformed_result() {
    let probe = Probe::start("example.com", "//exa mple.com/").expect("the domain is valid");
    let probe = probe.deliver(ProbeEvent::Response(200)).deliver(ProbeEvent::TimerElapsed);
    assert_eq!(probe.outcome(), Some(UrlState::Malformed(String::from("//exa mple.com/"))));
}

#[test]
fn probe_and_url_status_agree() {
    let events = [
        ProbeEvent::Response(200),
        ProbeEvent::Response(404),
        ProbeEvent::TransportError,
        ProbeEvent::TimerElapsed,
    ];
    for path in ["/", "a/b", "http://other.test/x", "http://[::1"] {
        for event in events {
            let probe = Probe::start("example.com", path).expect("the domain is valid");
            assert_eq!(
                probe.deliver(event).outcome(),
                Some(url_status("example.com", path, event))
            );
        }
    }
}
