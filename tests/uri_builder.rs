use remote_check::uri::{build_uri, encode_query_pair, resolve_port, BuildError, RequestParams, Scheme};

fn params(scheme: Scheme, host: &str, port: Option<u16>, path: &str, query: &[&str]) -> RequestParams {
    RequestParams {
        scheme,
        host: host.to_string(),
        port,
        path: path.to_string(),
        query: query.iter().map(|q| q.to_string()).collect(),
        timeout_secs: 15,
    }
}

#[test]
fn http_without_query_uses_port_80() {
    let p = params(Scheme::Http, "localhost", None, "/", &[]);
    assert_eq!(build_uri(&p), Ok("http://localhost:80/".to_string()));
}

#[test]
fn https_without_query_uses_port_443() {
    let p = params(Scheme::Https, "example.com", None, "/status", &[]);
    assert_eq!(build_uri(&p), Ok("https://example.com:443/status".to_string()));
}

#[test]
fn explicit_port_overrides_default() {
    let p = params(Scheme::Http, "localhost", Some(8080), "/check", &[]);
    assert_eq!(build_uri(&p), Ok("http://localhost:8080/check".to_string()));
    let p = params(Scheme::Https, "localhost", Some(8443), "/check", &[]);
    assert_eq!(build_uri(&p), Ok("https://localhost:8443/check".to_string()));
    let p = params(Scheme::Http, "localhost", Some(443), "/", &[]);
    assert_eq!(build_uri(&p), Ok("http://localhost:443/".to_string()));
}

#[test]
fn resolve_port_defaults() {
    assert_eq!(resolve_port(Scheme::Http, None), 80);
    assert_eq!(resolve_port(Scheme::Https, None), 443);
    assert_eq!(resolve_port(Scheme::Http, Some(1)), 1);
    assert_eq!(resolve_port(Scheme::Https, Some(65535)), 65535);
    assert_eq!(resolve_port(Scheme::Http, Some(0)), 0);
}

#[test]
fn scheme_from_tls_flag() {
    assert_eq!(Scheme::from_tls(false), Scheme::Http);
    assert_eq!(Scheme::from_tls(true), Scheme::Https);
    assert_eq!(Scheme::Http.as_str(), "http");
    assert_eq!(Scheme::Https.as_str(), "https");
}

#[test]
fn query_values_are_percent_encoded() {
    let p = params(Scheme::Http, "localhost", None, "/check", &["name=a b&c", "level=2"]);
    assert_eq!(
        build_uri(&p),
        Ok("http://localhost:80/check?name=a%20b%26c&level=2".to_string())
    );
}

#[test]
fn bare_tokens_pass_unencoded() {
    assert_eq!(encode_query_pair("x>5".to_string()), "x>5");
    assert_eq!(encode_query_pair("verbose".to_string()), "verbose");
    let p = params(Scheme::Http, "localhost", None, "/", &["verbose", "k=v"]);
    assert_eq!(build_uri(&p), Ok("http://localhost:80/?verbose&k=v".to_string()));
}

#[test]
fn only_first_equals_splits() {
    assert_eq!(encode_query_pair("k=a=b".to_string()), "k=a%3Db");
    assert_eq!(encode_query_pair("k=".to_string()), "k=");
    assert_eq!(encode_query_pair("=v".to_string()), "=v");
}

#[test]
fn non_alphanumeric_bytes_are_escaped_upper_case() {
    assert_eq!(encode_query_pair("k=-._~".to_string()), "k=%2D%2E%5F%7E");
    assert_eq!(encode_query_pair("k=\u{e9}".to_string()), "k=%C3%A9");
    assert_eq!(encode_query_pair("k=AZaz09".to_string()), "k=AZaz09");
}

#[test]
fn query_value_decodes_back() {
    let value = "disk /var & /tmp = full? \u{2713}";
    let encoded = encode_query_pair(format!("filter={}", value));
    let (key, enc) = encoded.split_once('=').unwrap();
    assert_eq!(key, "filter");
    assert!(enc.chars().all(|c| c.is_ascii_alphanumeric() || c == '%'));
    let decoded = percent_encoding::percent_decode_str(enc).decode_utf8().unwrap();
    assert_eq!(decoded, value);
}

#[test]
fn empty_host_is_refused() {
    let p = params(Scheme::Http, "", None, "/", &[]);
    assert_eq!(build_uri(&p), Err(BuildError::EmptyHost));
}

#[test]
fn invalid_uri_is_refused() {
    let p = params(Scheme::Http, "bad host", None, "/", &[]);
    assert_eq!(build_uri(&p), Err(BuildError::InvalidUri));
    let p = params(Scheme::Http, "localhost", None, "/a b", &[]);
    assert_eq!(build_uri(&p), Err(BuildError::InvalidUri));
}

#[test]
fn build_is_repeatable() {
    let p = params(Scheme::Https, "h", Some(1234), "/p", &["a=1 2", "t"]);
    assert_eq!(build_uri(&p), build_uri(&p));
    assert_eq!(build_uri(&p), Ok("https://h:1234/p?a=1%202&t".to_string()));
}
