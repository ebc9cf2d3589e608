use ss_connect::probe::{
    contains, ip_in, is_white_space, judge, next_probe, next_service, proxy_ss_urls, starts_with,
    trim, Step, Verdict,
};
use ss_connect::tls::{native_tls_info, negotiated_h2, rustls_tls_info, TlsInfo, TlsName};

#[test]
fn native_session_reports_the_certificate() {
    assert_eq!(
        native_tls_info(Ok(Some(Ok(vec![1, 2])))),
        Some(TlsInfo { peer_certificate: Some(vec![1, 2]) })
    );
    let nothing = Some(TlsInfo { peer_certificate: None });
    assert_eq!(native_tls_info(Ok(Some(Err(())))), nothing);
    assert_eq!(native_tls_info(Ok(None)), nothing);
    assert_eq!(native_tls_info(Err(())), nothing);
}

#[test]
fn rustls_session_reports_the_first_certificate() {
    assert_eq!(
        rustls_tls_info(Some(vec![vec![1], vec![2], vec![3]])),
        Some(TlsInfo { peer_certificate: Some(vec![1]) })
    );
    let nothing = Some(TlsInfo { peer_certificate: None });
    assert_eq!(rustls_tls_info(Some(vec![])), nothing);
    assert_eq!(rustls_tls_info(None), nothing);
}

#[test]
fn http2_is_told_by_its_protocol_name() {
    assert!(negotiated_h2(Some(b"h2")));
    assert!(!negotiated_h2(Some(b"http/1.1")));
    assert!(!negotiated_h2(Some(b"h2c")));
    assert!(!negotiated_h2(Some(b"h")));
    assert!(!negotiated_h2(Some(b"")));
    assert!(!negotiated_h2(None));
}

#[test]
fn tls_names_are_written_in_normal_form() {
    assert_eq!(TlsName::parse("example.org").ok().unwrap().text(), "example.org");
    assert_eq!(TlsName::parse("0:0:0:0:0:0:0:1").ok().unwrap().text(), "::1");
    assert_eq!(TlsName::parse("exa mple").err(), Some("invalid dns name".to_string()));
}

#[test]
fn only_ss_lines_are_proxies() {
    let lines = ["# list", "ss://a", "", " ss://b", "SS://c", "ss://d", "ss:/", "ss://"];
    let lines = lines.iter().map(|l| l.to_string()).collect();
    assert_eq!(proxy_ss_urls(lines), vec!["ss://a", "ss://d", "ss://"]);
    assert_eq!(proxy_ss_urls(vec![]), Vec::<String>::new());
}

#[test]
fn addresses_are_trimmed_and_checked() {
    assert_eq!(ip_in(" 1.2.3.4\r\n"), Some("1.2.3.4".to_string()));
    assert_eq!(ip_in(" \u{a0}\n"), None);
    assert_eq!(ip_in(""), None);
    assert_eq!(ip_in("502 Error"), None);
    assert_eq!(ip_in("an error"), Some("an error".to_string()));
}

#[test]
fn texts_are_searched() {
    assert!(contains("abcabd", "abd"));
    assert!(contains("abc", ""));
    assert!(contains("", ""));
    assert!(!contains("", "a"));
    assert!(!contains("abc", "abcd"));
    assert!(starts_with("abc", "ab"));
    assert!(starts_with("abc", ""));
    assert!(!starts_with("abc", "b"));
    assert!(!starts_with("a", "ab"));
    assert_eq!(trim("\t a b \n"), "a b");
    assert_eq!(trim("a"), "a");
}

#[test]
fn a_proxy_works_when_the_address_changes() {
    assert_eq!(judge(Some("5.6.7.8"), "1.2.3.4"), Verdict::Working);
    assert_eq!(judge(Some("1.2.3.4"), "1.2.3.4"), Verdict::SameIp);
    assert_eq!(judge(None, "1.2.3.4"), Verdict::Unreachable);
}

#[test]
fn white_space_is_that_of_unicode() {
    for c in '\0'..=char::MAX {
        assert_eq!(is_white_space(c), c.is_whitespace());
    }
}

#[test]
fn the_first_usable_answer_is_the_own_address() {
    assert_eq!(next_service(0, 2, Some("1.2.3.4\n")), Step::Done(Some("1.2.3.4".to_string())));
    assert_eq!(next_service(0, 2, Some("Error 1")), Step::Ask(1));
    assert_eq!(next_service(0, 2, None), Step::Ask(1));
    assert_eq!(next_service(1, 2, Some(" ")), Step::Done(None));
    assert_eq!(next_service(1, 2, None), Step::Done(None));
    assert_eq!(next_service(usize::MAX, usize::MAX, None), Step::Done(None));
}

#[test]
fn the_first_answer_through_a_proxy_counts() {
    assert_eq!(next_probe(0, 2, Some(" Error\n")), Step::Done(Some("Error".to_string())));
    assert_eq!(next_probe(0, 2, Some("")), Step::Done(Some(String::new())));
    assert_eq!(next_probe(0, 2, None), Step::Ask(1));
    assert_eq!(next_probe(1, 2, None), Step::Done(None));
}
