use loopback_oauth::encoding::{percent_decode, percent_encode};
use loopback_oauth::errors::FlowError;
use loopback_oauth::redirect::{confirmation_response, lookup_query, parse_redirect_line};
use loopback_oauth::text::{second_token, str_eq};

#[test]
fn well_formed_redirect_line_parses() {
    let line = "GET /?code=abc123&state=xyz789 HTTP/1.1\r\n";
    let rr = parse_redirect_line(line).ok().expect("the line is well formed");
    assert_eq!(rr.code, "abc123");
    assert_eq!(rr.state, "xyz789");
}

#[test]
fn extra_parameters_are_ignored() {
    let line = "GET /?foo=1&code=thecode&bar=2&state=thestate&baz=3 HTTP/1.1\r\n";
    let rr = parse_redirect_line(line).ok().expect("code and state are present");
    assert_eq!(rr.code, "thecode");
    assert_eq!(rr.state, "thestate");
}

#[test]
fn first_occurrence_of_a_parameter_wins() {
    let line = "GET /?code=first&code=second&state=s1&state=s2 HTTP/1.1\r\n";
    let rr = parse_redirect_line(line).ok().expect("both parameters are present");
    assert_eq!(rr.code, "first");
    assert_eq!(rr.state, "s1");
}

#[test]
fn parameter_values_are_percent_decoded() {
    let line = "GET /?code=a%2Fb%20c&state=x+y HTTP/1.1\r\n";
    let rr = parse_redirect_line(line).ok().expect("the line is well formed");
    assert_eq!(rr.code, "a/b c");
    assert_eq!(rr.state, "x y");
}

#[test]
fn missing_query_is_malformed() {
    match parse_redirect_line("GET / HTTP/1.1\r\n") {
        Err(FlowError::MalformedRedirectError) => {}
        _ => panic!("a target without a query has no code or state"),
    }
}

#[test]
fn missing_code_is_malformed() {
    match parse_redirect_line("GET /?state=only HTTP/1.1\r\n") {
        Err(FlowError::MalformedRedirectError) => {}
        _ => panic!("a query without a code is malformed"),
    }
}

#[test]
fn missing_state_is_malformed() {
    match parse_redirect_line("GET /?code=only HTTP/1.1\r\n") {
        Err(FlowError::MalformedRedirectError) => {}
        _ => panic!("a query without a state is malformed"),
    }
}

#[test]
fn empty_line_is_malformed() {
    match parse_redirect_line("") {
        Err(FlowError::MalformedRedirectError) => {}
        _ => panic!("an empty line has no request target"),
    }
}

#[test]
fn one_token_line_is_malformed() {
    match parse_redirect_line("GET\r\n") {
        Err(FlowError::MalformedRedirectError) => {}
        _ => panic!("a line without a target is malformed"),
    }
}

#[test]
fn value_may_be_empty() {
    let line = "GET /?code=&state=s HTTP/1.1\r\n";
    let rr = parse_redirect_line(line).ok().expect("an empty code still parses");
    assert_eq!(rr.code, "");
    assert_eq!(rr.state, "s");
}

#[test]
fn lookup_finds_only_whole_keys() {
    // `encode` must not match the key `code`.
    assert!(lookup_query("encode=zzz&mode=yyy", "code").is_none());
    assert_eq!(lookup_query("encode=zzz&code=real", "code").as_deref(), Some("real"));
}

#[test]
fn lookup_decodes_the_key_too() {
    assert_eq!(lookup_query("cod%65=v", "code").as_deref(), Some("v"));
}

#[test]
fn second_token_takes_the_request_target() {
    assert_eq!(second_token("GET /?a=b HTTP/1.1\r\n"), "/?a=b");
    assert_eq!(second_token("  GET   /path   HTTP/1.1"), "/path");
    assert_eq!(second_token("GET"), "");
    assert_eq!(second_token(""), "");
}

#[test]
fn percent_decode_maps_plus_and_escapes() {
    assert_eq!(percent_decode("a+b"), "a b");
    assert_eq!(percent_decode("a%2Fb"), "a/b");
    assert_eq!(percent_decode("a%2fb"), "a/b");
    assert_eq!(percent_decode("100%"), "100%");
    assert_eq!(percent_decode("%zz"), "%zz");
    // An escape above 0x7F is left untouched rather than guessed at.
    assert_eq!(percent_decode("%C3%A9"), "%C3%A9");
}

#[test]
fn percent_encode_escapes_reserved_bytes() {
    assert_eq!(percent_encode("abcXYZ019-._~"), "abcXYZ019-._~");
    assert_eq!(percent_encode("http://localhost:8080"), "http%3A%2F%2Flocalhost%3A8080");
    assert_eq!(percent_encode("a b"), "a%20b");
    assert_eq!(percent_encode("user:email"), "user%3Aemail");
    // A character outside ASCII is encoded byte by byte.
    assert_eq!(percent_encode("h\u{e9}llo"), "h%C3%A9llo");
}

#[test]
fn decoding_undoes_encoding_of_ascii_text() {
    let plain = "a b/c:d&e=f?g";
    assert_eq!(percent_decode(percent_encode(plain).as_str()), plain);
}

#[test]
fn confirmation_response_is_well_formed_http() {
    let response = confirmation_response();
    let body = "Go back to your terminal :)";
    assert_eq!(
        response,
        format!(
            "HTTP/1.1 200 OK\r\ncontent-length: {}\r\n\r\n{}",
            body.len(),
            body
        )
    );
}

#[test]
fn str_eq_is_exact_equality() {
    assert!(str_eq("same", "same"));
    assert!(!str_eq("same", "Same"));
    assert!(!str_eq("same", "same "));
    assert!(str_eq("", ""));
}
