use cosmic_radio_applet::stream_url::{check_url, judge, validate_url, UrlError, UrlParts};

#[test]
fn test_validate_url_valid_http() {
    assert!(validate_url("http://example.com/stream").is_ok());
}

#[test]
fn test_validate_url_valid_https() {
    assert!(validate_url("https://example.com/stream.mp3").is_ok());
}

#[test]
fn test_validate_url_invalid_scheme_file() {
    assert_eq!(
        validate_url("file:///etc/passwd"),
        Err("Only http/https URLs are allowed")
    );
}

#[test]
fn test_validate_url_invalid_scheme_ftp() {
    assert_eq!(
        validate_url("ftp://example.com/file"),
        Err("Only http/https URLs are allowed")
    );
}

#[test]
fn test_validate_url_localhost_blocked() {
    assert_eq!(
        validate_url("http://localhost:8080/stream"),
        Err("Local/private URLs not allowed")
    );
}

#[test]
fn test_validate_url_127_0_0_1_blocked() {
    assert_eq!(
        validate_url("https://127.0.0.1/stream"),
        Err("Local/private URLs not allowed")
    );
}

#[test]
fn test_validate_url_private_192_168_blocked() {
    assert_eq!(
        validate_url("http://192.168.1.1/stream"),
        Err("Local/private URLs not allowed")
    );
}

#[test]
fn test_validate_url_private_10_blocked() {
    assert_eq!(
        validate_url("http://10.0.0.1/stream"),
        Err("Local/private URLs not allowed")
    );
}

#[test]
fn test_validate_url_private_172_16_blocked() {
    assert_eq!(
        validate_url("http://172.16.0.1/stream"),
        Err("Local/private URLs not allowed")
    );
}

#[test]
fn test_validate_url_invalid_format() {
    assert_eq!(
        validate_url("not a url at all"),
        Err("Invalid URL format")
    );
}

#[test]
fn test_validate_url_empty_string() {
    assert_eq!(validate_url(""), Err("Invalid URL format"));
}

#[test]
fn test_validate_url_public_ip() {
    assert!(validate_url("http://8.8.8.8/stream").is_ok());
}

#[test]
fn test_validate_url_with_port() {
    assert!(validate_url("https://example.com:8443/stream").is_ok());
}

#[test]
fn test_validate_url_with_path_and_query() {
    assert!(validate_url("http://radio.example.com/live?quality=high").is_ok());
}

fn parts(scheme: &str, host: Option<&str>) -> UrlParts {
    UrlParts {
        scheme: scheme.to_string(),
        host: host.map(|h| h.to_string()),
    }
}

#[test]
fn judge_unparsed_is_invalid_format() {
    assert_eq!(judge(None), Err(UrlError::InvalidFormat));
}

#[test]
fn judge_rejects_other_schemes_before_looking_at_the_host() {
    assert_eq!(
        judge(Some(&parts("ftp", Some("example.com")))),
        Err(UrlError::SchemeNotAllowed)
    );
    assert_eq!(
        judge(Some(&parts("file", None))),
        Err(UrlError::SchemeNotAllowed)
    );
    assert_eq!(
        judge(Some(&parts("ftp", Some("localhost")))),
        Err(UrlError::SchemeNotAllowed)
    );
    assert_eq!(
        judge(Some(&parts("httpx", Some("example.com")))),
        Err(UrlError::SchemeNotAllowed)
    );
    assert_eq!(
        judge(Some(&parts("htt", Some("example.com")))),
        Err(UrlError::SchemeNotAllowed)
    );
}

#[test]
fn judge_rejects_local_and_private_hosts() {
    for host in [
        "localhost",
        "127.0.0.1",
        "192.168.0.1",
        "192.168.",
        "10.0.0.1",
        "10.example.com",
        "172.16.5.4",
    ] {
        assert_eq!(
            judge(Some(&parts("http", Some(host)))),
            Err(UrlError::LocalHost),
            "{host}"
        );
        assert_eq!(
            judge(Some(&parts("https", Some(host)))),
            Err(UrlError::LocalHost),
            "{host}"
        );
    }
}

#[test]
fn judge_accepts_public_hosts() {
    for host in [
        "example.com",
        "8.8.8.8",
        "localhost.example.com",
        "127.0.0.2",
        "192.169.0.1",
        "192.168",
        "100.0.0.1",
        "110.1.1.1",
        "172.17.0.1",
        "172.160.0.1",
        "",
    ] {
        assert_eq!(judge(Some(&parts("http", Some(host)))), Ok(()), "{host}");
    }
    assert_eq!(judge(Some(&parts("https", None))), Ok(()));
}

#[test]
fn url_error_messages() {
    assert_eq!(UrlError::InvalidFormat.message(), "Invalid URL format");
    assert_eq!(
        UrlError::SchemeNotAllowed.message(),
        "Only http/https URLs are allowed"
    );
    assert_eq!(
        UrlError::LocalHost.message(),
        "Local/private URLs not allowed"
    );
}

#[test]
fn check_url_reads_what_the_parser_normalised() {
    // The parser lower-cases scheme and host, and writes an IPv4 address in
    // full: the verdict goes by its output, not by the raw text.
    assert_eq!(check_url("HTTP://EXAMPLE.COM/stream"), Ok(()));
    assert_eq!(check_url("http://LOCALHOST/stream"), Err(UrlError::LocalHost));
    assert_eq!(check_url("http://127.1/stream"), Err(UrlError::LocalHost));
    assert_eq!(
        check_url("http://user:pw@192.168.1.1:8000/a?b=c#d"),
        Err(UrlError::LocalHost)
    );
    assert_eq!(
        check_url("localhost:8080/stream"),
        Err(UrlError::SchemeNotAllowed)
    );
    assert_eq!(check_url("//example.com/stream"), Err(UrlError::InvalidFormat));
    assert_eq!(check_url("http://"), Err(UrlError::InvalidFormat));
}

#[test]
fn check_url_rejects_private_hosts_whatever_follows() {
    for rest in ["", "/", ":80", ":8080/live", "/a/b?x=1", "?q=1", "#frag"] {
        let url = format!("http://10.1.2.3{rest}");
        assert_eq!(check_url(&url), Err(UrlError::LocalHost), "{url}");
        let url = format!("https://localhost{rest}");
        assert_eq!(check_url(&url), Err(UrlError::LocalHost), "{url}");
    }
}
