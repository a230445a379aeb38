use auth0m2m::credentials::{
    encoded, finish_file, Auth0M2MCredentials, EncodeError, FetchError, ParseError, Token,
};
use auth0m2m::json::Absence;
use std::io::{Read, Write};

fn owned(s: &str) -> String {
    s.to_string()
}

fn abcd() -> Auth0M2MCredentials {
    Auth0M2MCredentials::new(owned("a"), owned("b"), owned("c"), owned("d"))
}

fn same(x: &Auth0M2MCredentials, y: &Auth0M2MCredentials) -> bool {
    x.client_id() == y.client_id()
        && x.client_secret() == y.client_secret()
        && x.audience() == y.audience()
        && x.domain() == y.domain()
        && x.grant_type() == y.grant_type()
}

fn text_of(bytes: Vec<u8>) -> String {
    String::from_utf8(bytes).unwrap()
}

fn field_error(r: Result<Auth0M2MCredentials, ParseError>) -> (String, Absence) {
    match r {
        Err(ParseError::Field { name, why }) => (name, why),
        Err(ParseError::Syntax { detail }) => panic!("syntax: {}", detail),
        Ok(_) => panic!("loaded"),
    }
}

fn is_syntax_error(r: Result<Auth0M2MCredentials, ParseError>) -> bool {
    matches!(r, Err(ParseError::Syntax { .. }))
}

#[test]
fn test_credentials() {
    let cred = Auth0M2MCredentials::new(
        "a".to_string(),
        "b".to_string(),
        "c".to_string(),
        "d".to_string(),
    );
    let contents = cred.to_json().unwrap();
    let dir = tempfile::tempdir().unwrap();
    let mut file = tempfile::Builder::new()
        .prefix("tmp")
        .suffix(".txt")
        .rand_bytes(0)
        .tempfile_in(dir.path())
        .unwrap();
    assert_eq!(file.path(), dir.path().join("tmp.txt"));
    file.write_all(&contents).unwrap();
    file.flush().unwrap();
    let mut stored = Vec::new();
    file.reopen().unwrap().read_to_end(&mut stored).unwrap();
    assert_eq!(stored, contents);
    assert!(same(&Auth0M2MCredentials::from_json(&stored).unwrap(), &cred));
}

#[test]
fn new_keeps_the_four_texts() {
    let c = Auth0M2MCredentials::new(owned("id"), owned("secret"), owned("aud"), owned("dom"));
    assert_eq!(c.client_id(), "id");
    assert_eq!(c.client_secret(), "secret");
    assert_eq!(c.audience(), "aud");
    assert_eq!(c.domain(), "dom");
}

#[test]
fn new_takes_texts_as_they_are() {
    let c = Auth0M2MCredentials::new(owned(""), owned(" s "), owned("a\nb"), owned("é"));
    assert_eq!(c.client_id(), "");
    assert_eq!(c.client_secret(), " s ");
    assert_eq!(c.audience(), "a\nb");
    assert_eq!(c.domain(), "é");
}

#[test]
fn grant_type_is_always_client_credentials() {
    assert_eq!(abcd().grant_type(), "client_credentials");
    let c = Auth0M2MCredentials::new(owned("password"), owned(""), owned(""), owned(""));
    assert_eq!(c.grant_type(), "client_credentials");
    let c = Auth0M2MCredentials::from_prompt("1", "2", "3", "4");
    assert_eq!(c.grant_type(), "client_credentials");
}

#[test]
fn entries_are_the_five_members_in_order() {
    assert_eq!(
        abcd().entries(),
        vec![
            (owned("client_id"), owned("a")),
            (owned("client_secret"), owned("b")),
            (owned("audience"), owned("c")),
            (owned("domain"), owned("d")),
            (owned("grant_type"), owned("client_credentials")),
        ]
    );
}

#[test]
fn to_json_is_a_pretty_object_and_a_line_end() {
    let expected = "{\n  \"client_id\": \"a\",\n  \"client_secret\": \"b\",\n  \"audience\": \"c\",\n  \"domain\": \"d\",\n  \"grant_type\": \"client_credentials\"\n}\n";
    assert_eq!(text_of(abcd().to_json().unwrap()), expected);
}

#[test]
fn to_json_holds_the_object_of_the_record() {
    let text = text_of(abcd().to_json().unwrap());
    assert!(text.ends_with("}\n"));
    assert!(!text.ends_with("\n\n"));
    let value: serde_json::Value = serde_json::from_str(&text).unwrap();
    let compact = serde_json::to_string(&value).unwrap();
    let mut keys: Vec<&str> = value.as_object().unwrap().keys().map(|k| k.as_str()).collect();
    keys.sort();
    assert_eq!(keys, vec!["audience", "client_id", "client_secret", "domain", "grant_type"]);
    assert_eq!(value["client_id"], "a");
    assert_eq!(value["client_secret"], "b");
    assert_eq!(value["audience"], "c");
    assert_eq!(value["domain"], "d");
    assert_eq!(value["grant_type"], "client_credentials");
    assert!(compact.contains("\"grant_type\":\"client_credentials\""));
}

#[test]
fn to_json_escapes_what_json_must_escape() {
    let c = Auth0M2MCredentials::new(
        owned("q\"uote"),
        owned("back\\slash"),
        owned("new\nline\ttab"),
        owned("\u{1}é日本"),
    );
    let text = text_of(c.to_json().unwrap());
    assert!(text.contains("\"client_id\": \"q\\\"uote\""));
    assert!(text.contains("\"client_secret\": \"back\\\\slash\""));
    assert!(text.contains("\"audience\": \"new\\nline\\ttab\""));
    assert!(text.contains("\"domain\": \"\\u0001é日本\""));
}

#[test]
fn to_json_differs_with_the_record() {
    let one = abcd().to_json().unwrap();
    let other = Auth0M2MCredentials::new(owned("a"), owned("b"), owned("c"), owned("e"))
        .to_json()
        .unwrap();
    assert_ne!(one, other);
}

#[test]
fn encoded_keeps_the_bytes_and_passes_a_failure_on() {
    assert_eq!(encoded(Ok(b"{\"a\":1}".to_vec())).unwrap(), b"{\"a\":1}".to_vec());
    assert_eq!(encoded(Ok(Vec::new())).unwrap(), Vec::<u8>::new());
    let failure = serde_json::from_str::<serde_json::Value>("[").unwrap_err();
    let said = failure.to_string();
    match encoded(Err(failure)) {
        Err(e) => assert_eq!(e.message(), said),
        Ok(_) => panic!("no failure"),
    }
}

#[test]
fn finish_file_adds_a_line_end() {
    assert_eq!(finish_file(Ok(b"{}".to_vec())).unwrap(), b"{}\n".to_vec());
    assert_eq!(finish_file(Ok(Vec::new())).unwrap(), b"\n".to_vec());
    assert_eq!(finish_file(Ok(b"x\n".to_vec())).unwrap(), b"x\n\n".to_vec());
}

#[test]
fn finish_file_passes_a_failure_on() {
    let failure = serde_json::from_str::<serde_json::Value>("{").unwrap_err();
    let said = failure.to_string();
    match finish_file(Err(failure)) {
        Err(EncodeError { detail }) => assert_eq!(detail, said),
        Ok(_) => panic!("no failure"),
    }
}

#[test]
fn what_is_written_loads_as_it_was() {
    let records = [
        abcd(),
        Auth0M2MCredentials::new(owned(""), owned(""), owned(""), owned("")),
        Auth0M2MCredentials::new(
            owned("kXyz012"),
            owned("s3cr3t-\"with\"\\quotes"),
            owned("https://api.example.com/"),
            owned("tenant.eu.auth0.com"),
        ),
        Auth0M2MCredentials::new(owned(" lead"), owned("trail "), owned("in ner"), owned("\n")),
        Auth0M2MCredentials::new(owned("日本語"), owned("🔑"), owned("\u{0}"), owned("é")),
        Auth0M2MCredentials::new(
            owned("grant_type"),
            owned("client_id"),
            owned("{\"client_id\":\"x\"}"),
            owned("password"),
        ),
    ];
    for record in records.iter() {
        let loaded = Auth0M2MCredentials::from_json(&record.to_json().unwrap()).unwrap();
        assert!(same(&loaded, record));
        assert_eq!(loaded.grant_type(), "client_credentials");
    }
}

#[test]
fn what_is_loaded_writes_as_it_was() {
    let text = abcd().to_json().unwrap();
    let again = Auth0M2MCredentials::from_json(&text).unwrap().to_json().unwrap();
    assert_eq!(again, text);
}

#[test]
fn from_json_reads_a_compact_object_in_any_order() {
    let text = br#"{"grant_type":"client_credentials","domain":"d","audience":"c","client_secret":"b","client_id":"a"}"#;
    assert!(same(&Auth0M2MCredentials::from_json(text).unwrap(), &abcd()));
}

#[test]
fn from_json_does_not_take_the_grant_type_over() {
    let text = br#"{"client_id":"a","client_secret":"b","audience":"c","domain":"d","grant_type":"password"}"#;
    let loaded = Auth0M2MCredentials::from_json(text).unwrap();
    assert_eq!(loaded.grant_type(), "client_credentials");
    assert!(same(&loaded, &abcd()));
}

#[test]
fn from_json_without_client_id_fails() {
    let text = br#"{"client_secret":"b","audience":"c","domain":"d","grant_type":"client_credentials"}"#;
    assert_eq!(
        field_error(Auth0M2MCredentials::from_json(text)),
        (owned("client_id"), Absence::Missing)
    );
}

#[test]
fn from_json_needs_each_of_the_five_members() {
    let names = ["client_id", "client_secret", "audience", "domain", "grant_type"];
    for missing in names {
        let mut object = serde_json::Map::new();
        for name in names {
            if name != missing {
                object.insert(owned(name), serde_json::Value::String(owned("x")));
            }
        }
        let text = serde_json::to_vec(&object).unwrap();
        assert_eq!(
            field_error(Auth0M2MCredentials::from_json(&text)),
            (owned(missing), Absence::Missing)
        );
    }
}

#[test]
fn from_json_names_the_first_member_that_is_missing() {
    assert_eq!(
        field_error(Auth0M2MCredentials::from_json(b"{}")),
        (owned("client_id"), Absence::Missing)
    );
    assert_eq!(
        field_error(Auth0M2MCredentials::from_json(br#"{"client_id":"a","domain":"d"}"#)),
        (owned("client_secret"), Absence::Missing)
    );
    assert_eq!(
        field_error(Auth0M2MCredentials::from_json(
            br#"{"client_id":"a","client_secret":"b","domain":7}"#
        )),
        (owned("audience"), Absence::Missing)
    );
}

#[test]
fn from_json_wants_texts() {
    let text = br#"{"client_id":1,"client_secret":"b","audience":"c","domain":"d","grant_type":"client_credentials"}"#;
    assert_eq!(
        field_error(Auth0M2MCredentials::from_json(text)),
        (owned("client_id"), Absence::NotText)
    );
    let text = br#"{"client_id":"a","client_secret":null,"audience":"c","domain":"d","grant_type":"client_credentials"}"#;
    assert_eq!(
        field_error(Auth0M2MCredentials::from_json(text)),
        (owned("client_secret"), Absence::NotText)
    );
    let text = br#"{"client_id":"a","client_secret":"b","audience":["c"],"domain":"d","grant_type":"client_credentials"}"#;
    assert_eq!(
        field_error(Auth0M2MCredentials::from_json(text)),
        (owned("audience"), Absence::NotText)
    );
    let text = br#"{"client_id":"a","client_secret":"b","audience":"c","domain":{"d":"d"},"grant_type":"client_credentials"}"#;
    assert_eq!(
        field_error(Auth0M2MCredentials::from_json(text)),
        (owned("domain"), Absence::NotText)
    );
    let text = br#"{"client_id":"a","client_secret":"b","audience":"c","domain":"d","grant_type":true}"#;
    assert_eq!(
        field_error(Auth0M2MCredentials::from_json(text)),
        (owned("grant_type"), Absence::NotText)
    );
}

#[test]
fn from_json_ignores_members_of_other_names() {
    let text = br#"{"comment":"mine","client_id":"a","client_secret":"b","extra":{"deep":[1,2,3]},"audience":"c","domain":"d","grant_type":"client_credentials","n":1.5,"Client_Id":"z"}"#;
    assert!(same(&Auth0M2MCredentials::from_json(text).unwrap(), &abcd()));
}

#[test]
fn from_json_takes_the_last_of_two_members_of_one_name() {
    let text = br#"{"client_id":"first","client_id":"a","client_secret":"b","audience":"c","domain":"d","grant_type":"client_credentials"}"#;
    assert!(same(&Auth0M2MCredentials::from_json(text).unwrap(), &abcd()));
}

#[test]
fn from_json_refuses_what_is_no_object() {
    assert!(is_syntax_error(Auth0M2MCredentials::from_json(b"")));
    assert!(is_syntax_error(Auth0M2MCredentials::from_json(b"   ")));
    assert!(is_syntax_error(Auth0M2MCredentials::from_json(b"{")));
    assert!(is_syntax_error(Auth0M2MCredentials::from_json(b"null")));
    assert!(is_syntax_error(Auth0M2MCredentials::from_json(b"\"client_id\"")));
    assert!(is_syntax_error(Auth0M2MCredentials::from_json(b"[1,2]")));
    assert!(is_syntax_error(Auth0M2MCredentials::from_json(b"17")));
    assert!(is_syntax_error(Auth0M2MCredentials::from_json(b"not json at all")));
    assert!(is_syntax_error(Auth0M2MCredentials::from_json(b"{'client_id':'a'}")));
    assert!(is_syntax_error(Auth0M2MCredentials::from_json(&[0xff, 0xfe])));
}

#[test]
fn from_json_refuses_what_follows_the_object() {
    let mut text = abcd().to_json().unwrap();
    assert!(Auth0M2MCredentials::from_json(&text).is_ok());
    text.extend_from_slice(b"{}");
    assert!(is_syntax_error(Auth0M2MCredentials::from_json(&text)));
    let mut text = abcd().to_json().unwrap();
    text.extend_from_slice(b"x");
    assert!(is_syntax_error(Auth0M2MCredentials::from_json(&text)));
}

#[test]
fn from_json_allows_whitespace_around_the_object() {
    let mut text = b" \n\t".to_vec();
    text.extend_from_slice(&abcd().to_json().unwrap());
    text.extend_from_slice(b"\n\n  ");
    assert!(same(&Auth0M2MCredentials::from_json(&text).unwrap(), &abcd()));
}

#[test]
fn from_members_reads_the_five_members() {
    let members = vec![
        (owned("client_id"), Some(owned("a"))),
        (owned("client_secret"), Some(owned("b"))),
        (owned("audience"), Some(owned("c"))),
        (owned("domain"), Some(owned("d"))),
        (owned("grant_type"), Some(owned("anything"))),
    ];
    assert!(same(&Auth0M2MCredentials::from_members(&members).unwrap(), &abcd()));
}

#[test]
fn from_members_takes_the_first_of_a_name() {
    let members = vec![
        (owned("domain"), Some(owned("d"))),
        (owned("other"), None),
        (owned("client_id"), Some(owned("a"))),
        (owned("client_id"), Some(owned("later"))),
        (owned("audience"), Some(owned("c"))),
        (owned("grant_type"), Some(owned("client_credentials"))),
        (owned("client_secret"), Some(owned("b"))),
        (owned("client_secret"), None),
    ];
    assert!(same(&Auth0M2MCredentials::from_members(&members).unwrap(), &abcd()));
}

#[test]
fn from_members_reports_what_is_wrong() {
    assert_eq!(
        field_error(Auth0M2MCredentials::from_members(&Vec::new())),
        (owned("client_id"), Absence::Missing)
    );
    let members = vec![
        (owned("client_id"), Some(owned("a"))),
        (owned("client_secret"), None),
        (owned("client_secret"), Some(owned("b"))),
    ];
    assert_eq!(
        field_error(Auth0M2MCredentials::from_members(&members)),
        (owned("client_secret"), Absence::NotText)
    );
    let members = vec![
        (owned("client_id"), Some(owned("a"))),
        (owned("client_secret"), Some(owned("b"))),
        (owned("audience"), Some(owned("c"))),
        (owned("domain"), Some(owned("d"))),
    ];
    assert_eq!(
        field_error(Auth0M2MCredentials::from_members(&members)),
        (owned("grant_type"), Absence::Missing)
    );
}

#[test]
fn from_prompt_trims_each_answer() {
    let c = Auth0M2MCredentials::from_prompt("  id \n", "\tsecret\r\n", "aud\n", " dom");
    assert_eq!(c.client_id(), "id");
    assert_eq!(c.client_secret(), "secret");
    assert_eq!(c.audience(), "aud");
    assert_eq!(c.domain(), "dom");
}

#[test]
fn from_prompt_keeps_what_is_inside_an_answer() {
    let c = Auth0M2MCredentials::from_prompt(" my id \n", "a  b\tc\n", "https://x/ y\n", "d . e\n");
    assert_eq!(c.client_id(), "my id");
    assert_eq!(c.client_secret(), "a  b\tc");
    assert_eq!(c.audience(), "https://x/ y");
    assert_eq!(c.domain(), "d . e");
}

#[test]
fn from_prompt_takes_empty_answers() {
    let c = Auth0M2MCredentials::from_prompt("\n", "", "   \n", "\r\n");
    assert_eq!(c.client_id(), "");
    assert_eq!(c.client_secret(), "");
    assert_eq!(c.audience(), "");
    assert_eq!(c.domain(), "");
}

#[test]
fn token_url_is_the_token_endpoint_of_the_domain() {
    assert_eq!(abcd().token_url(), "https://d/oauth/token");
    let c = Auth0M2MCredentials::new(owned(""), owned(""), owned(""), owned("t.eu.auth0.com"));
    assert_eq!(c.token_url(), "https://t.eu.auth0.com/oauth/token");
    let c = Auth0M2MCredentials::new(owned("x"), owned("y"), owned("z"), owned(""));
    assert_eq!(c.token_url(), "https:///oauth/token");
}

#[test]
fn request_body_is_the_whole_record_as_a_compact_object() {
    assert_eq!(
        text_of(abcd().request_body().unwrap()),
        r#"{"client_id":"a","client_secret":"b","audience":"c","domain":"d","grant_type":"client_credentials"}"#
    );
}

#[test]
fn request_body_loads_as_the_record() {
    let c = Auth0M2MCredentials::new(owned("i\"d"), owned("s\\"), owned("a\n"), owned("d"));
    assert!(same(&Auth0M2MCredentials::from_json(&c.request_body().unwrap()).unwrap(), &c));
}

#[test]
fn token_holds_its_two_texts() {
    let t = Token::new(owned("tok123"), owned("Bearer"));
    assert_eq!(t.access_token(), "tok123");
    assert_eq!(t.token_type(), "Bearer");
    assert_eq!(
        t.entries(),
        vec![(owned("access_token"), owned("tok123")), (owned("token_type"), owned("Bearer"))]
    );
}

#[test]
fn token_to_json_is_a_compact_object() {
    let t = Token::new(owned("tok123"), owned("Bearer"));
    assert_eq!(
        text_of(t.to_json().unwrap()),
        r#"{"access_token":"tok123","token_type":"Bearer"}"#
    );
    let t = Token::new(owned("a\"b"), owned(""));
    assert_eq!(text_of(t.to_json().unwrap()), r#"{"access_token":"a\"b","token_type":""}"#);
}

#[test]
fn token_from_response_reads_a_success() {
    let body = br#"{"access_token":"tok123","token_type":"Bearer"}"#;
    let t = Token::from_response(200, body).unwrap();
    assert_eq!(t.access_token(), "tok123");
    assert_eq!(t.token_type(), "Bearer");
}

#[test]
fn token_from_response_ignores_other_members() {
    let body = br#"{"access_token":"tok123","scope":"read:all","expires_in":86400,"token_type":"Bearer"}"#;
    let t = Token::from_response(200, body).unwrap();
    assert_eq!(t.access_token(), "tok123");
    assert_eq!(t.token_type(), "Bearer");
}

#[test]
fn token_from_response_fails_on_a_failure_status() {
    let body = br#"{"error":"access_denied","error_description":"Unauthorized"}"#;
    assert!(matches!(Token::from_response(401, body), Err(FetchError::Http { status: 401 })));
    assert!(matches!(Token::from_response(403, b""), Err(FetchError::Http { status: 403 })));
    assert!(matches!(Token::from_response(500, b"oops"), Err(FetchError::Http { status: 500 })));
}

#[test]
fn token_from_response_does_not_read_the_body_of_a_failure() {
    let body = br#"{"access_token":"tok123","token_type":"Bearer"}"#;
    assert!(matches!(Token::from_response(401, body), Err(FetchError::Http { status: 401 })));
    assert!(matches!(Token::from_response(503, body), Err(FetchError::Http { status: 503 })));
}

#[test]
fn token_from_response_draws_the_line_at_400_and_599() {
    let body = br#"{"access_token":"t","token_type":"Bearer"}"#;
    assert!(Token::from_response(399, body).is_ok());
    assert!(matches!(Token::from_response(400, body), Err(FetchError::Http { status: 400 })));
    assert!(matches!(Token::from_response(499, body), Err(FetchError::Http { status: 499 })));
    assert!(matches!(Token::from_response(500, body), Err(FetchError::Http { status: 500 })));
    assert!(matches!(Token::from_response(599, body), Err(FetchError::Http { status: 599 })));
    assert!(Token::from_response(600, body).is_ok());
    assert!(Token::from_response(201, body).is_ok());
    assert!(Token::from_response(302, body).is_ok());
    assert!(Token::from_response(0, body).is_ok());
    assert!(Token::from_response(u16::MAX, body).is_ok());
}

#[test]
fn token_from_response_fails_on_a_body_that_is_no_token() {
    assert!(matches!(
        Token::from_response(200, b"<html>"),
        Err(FetchError::Decode { cause: ParseError::Syntax { .. } })
    ));
    assert!(matches!(
        Token::from_response(200, b""),
        Err(FetchError::Decode { cause: ParseError::Syntax { .. } })
    ));
    match Token::from_response(200, br#"{"token_type":"Bearer"}"#) {
        Err(FetchError::Decode { cause: ParseError::Field { name, why } }) => {
            assert_eq!(name, "access_token");
            assert_eq!(why, Absence::Missing);
        }
        _ => panic!("no decode error"),
    }
    match Token::from_response(200, br#"{"access_token":"t","token_type":3}"#) {
        Err(FetchError::Decode { cause: ParseError::Field { name, why } }) => {
            assert_eq!(name, "token_type");
            assert_eq!(why, Absence::NotText);
        }
        _ => panic!("no decode error"),
    }
}

#[test]
fn token_from_members_reads_both_members() {
    let members = vec![
        (owned("expires_in"), None),
        (owned("token_type"), Some(owned("Bearer"))),
        (owned("access_token"), Some(owned("tok"))),
    ];
    let t = Token::from_members(&members).unwrap();
    assert_eq!(t.access_token(), "tok");
    assert_eq!(t.token_type(), "Bearer");
    let members = vec![(owned("access_token"), Some(owned("tok")))];
    assert!(matches!(
        Token::from_members(&members),
        Err(ParseError::Field { why: Absence::Missing, .. })
    ));
}

#[test]
fn parse_error_messages() {
    assert_eq!(ParseError::Syntax { detail: owned("EOF while parsing") }.message(), "EOF while parsing");
    assert_eq!(
        ParseError::Field { name: owned("client_id"), why: Absence::Missing }.message(),
        "missing field `client_id`"
    );
    assert_eq!(
        ParseError::Field { name: owned("domain"), why: Absence::NotText }.message(),
        "field `domain` is not a string"
    );
}

#[test]
fn parse_error_of_a_real_text_says_where() {
    match Auth0M2MCredentials::from_json(b"{\n  \"client_id\": ") {
        Err(e) => {
            let said = e.message();
            assert!(said.contains("line 2"), "{}", said);
        }
        Ok(_) => panic!("loaded"),
    }
}

#[test]
fn encode_error_message_is_its_detail() {
    assert_eq!(EncodeError { detail: owned("why") }.message(), "why");
}

#[test]
fn fetch_error_messages() {
    assert_eq!(FetchError::Http { status: 401 }.message(), "HTTP status 401");
    assert_eq!(FetchError::Http { status: 503 }.message(), "HTTP status 503");
    assert_eq!(
        FetchError::Transport { detail: owned("timed out") }.message(),
        "could not reach the identity provider: timed out"
    );
    assert_eq!(
        FetchError::Request { detail: owned("x") }.message(),
        "could not write the request: x"
    );
    assert_eq!(
        FetchError::Decode { cause: ParseError::Field { name: owned("access_token"), why: Absence::Missing } }
            .message(),
        "could not read the response: missing field `access_token`"
    );
}
