use cicadas::config::parse_headers;
use cicadas::{Arguments, ErrorType, HttpClientBlocking, HttpMethod};

fn arguments_for(target: &str, proxy: Option<&str>) -> Arguments {
    Arguments {
        target: target.to_owned(),
        method: HttpMethod::Get,
        proxy: proxy.map(|p| p.to_owned()),
        duration: 1,
        connections: 1,
        payload: None,
        headers: None,
        timeout: 1,
    }
}

#[test]
fn parse_headers_splits_and_validates() {
    let raw = vec![
        "Content-Type:application/json".to_owned(),
        "X-Request-Id:42".to_owned(),
    ];
    let pairs = parse_headers(raw).unwrap().unwrap();
    assert_eq!(
        pairs,
        vec![
            ("Content-Type".to_owned(), "application/json".to_owned()),
            ("X-Request-Id".to_owned(), "42".to_owned()),
        ]
    );
}

#[test]
fn parse_headers_of_nothing_is_empty() {
    let pairs = parse_headers(Vec::new()).unwrap().unwrap();
    assert!(pairs.is_empty());
}

#[test]
fn parse_headers_rejects_missing_colon() {
    assert_eq!(
        parse_headers(vec!["NoSeparator".to_owned()]),
        Err(ErrorType::InvalidHeaderStructure)
    );
}

#[test]
fn parse_headers_rejects_two_colons() {
    assert_eq!(
        parse_headers(vec!["a:b:c".to_owned()]),
        Err(ErrorType::InvalidHeaderStructure)
    );
}

#[test]
fn parse_headers_rejects_bad_name() {
    assert_eq!(
        parse_headers(vec!["bad name:x".to_owned()]),
        Err(ErrorType::InvalidHeaderName)
    );
}

#[test]
fn parse_headers_rejects_bad_value() {
    assert_eq!(
        parse_headers(vec!["x:bad\u{0}value".to_owned()]),
        Err(ErrorType::InvalidHeaderValue)
    );
}

#[test]
fn parse_headers_first_offence_wins() {
    let raw = vec!["a:b:c".to_owned(), "bad name:x".to_owned()];
    assert_eq!(parse_headers(raw), Err(ErrorType::InvalidHeaderStructure));
    let raw = vec!["ok:fine".to_owned(), "bad name:x".to_owned()];
    assert_eq!(parse_headers(raw), Err(ErrorType::InvalidHeaderName));
}

#[test]
fn malformed_proxy_is_fatal_before_any_worker_starts() {
    let arguments = arguments_for("http://127.0.0.1:80/", Some("http://exa mple.com"));
    let built = HttpClientBlocking::from_arguments(&arguments);
    assert!(matches!(built, Err(ErrorType::InvalidProxy)));
}

#[test]
fn valid_proxy_is_accepted() {
    let arguments = arguments_for("http://127.0.0.1:80/", Some("http://127.0.0.1:8080"));
    let built = HttpClientBlocking::from_arguments(&arguments);
    assert!(built.is_ok());
}

#[test]
fn executor_carries_the_configuration() {
    let mut arguments = arguments_for("http://127.0.0.1:80/hello", None);
    arguments.method = HttpMethod::Post;
    arguments.payload = Some("ping".to_owned());
    let executor = HttpClientBlocking::from_arguments(&arguments).unwrap();
    assert_eq!(executor.url, "http://127.0.0.1:80/hello");
    assert_eq!(executor.method, HttpMethod::Post);
    assert_eq!(executor.payload, Some("ping".to_owned()));
}

#[test]
fn executor_rejects_invalid_header_name() {
    let mut arguments = arguments_for("http://127.0.0.1:80/", None);
    arguments.headers = Some(vec![("bad name".to_owned(), "x".to_owned())]);
    assert!(matches!(
        HttpClientBlocking::from_arguments(&arguments),
        Err(ErrorType::InvalidHeaderName)
    ));
}

#[test]
fn executor_rejects_invalid_header_value() {
    let mut arguments = arguments_for("http://127.0.0.1:80/", None);
    arguments.headers = Some(vec![("ok".to_owned(), "bad\u{0}".to_owned())]);
    assert!(matches!(
        HttpClientBlocking::from_arguments(&arguments),
        Err(ErrorType::InvalidHeaderValue)
    ));
}

#[test]
fn executor_accepts_valid_headers() {
    let mut arguments = arguments_for("http://127.0.0.1:80/", None);
    arguments.headers = Some(vec![("X-Load-Test".to_owned(), "cicadas".to_owned())]);
    assert!(HttpClientBlocking::from_arguments(&arguments).is_ok());
}

#[test]
fn executor_accepts_every_token_name_and_value_character() {
    // The whole token class in a name, upper case included, and a value
    // with tab, space and characters beyond ASCII: the real header map
    // accepts exactly what the library's validity grammar accepts.
    let mut arguments = arguments_for("http://127.0.0.1:80/", None);
    arguments.headers = Some(vec![
        (
            "AZaz09!#$%&'*+-.^_`|~".to_owned(),
            "tab\there sp\u{e9}ci\u{e4}l \u{2603}".to_owned(),
        ),
        ("x".to_owned(), "".to_owned()),
    ]);
    assert!(HttpClientBlocking::from_arguments(&arguments).is_ok());
}

#[test]
fn later_header_replaces_earlier_one_with_same_name() {
    // Header names are filed case-insensitively: both spellings name one
    // header, so the map accepts the pair and the run proceeds.
    let mut arguments = arguments_for("http://127.0.0.1:80/", None);
    arguments.headers = Some(vec![
        ("X-Token".to_owned(), "first".to_owned()),
        ("x-token".to_owned(), "second".to_owned()),
    ]);
    assert!(HttpClientBlocking::from_arguments(&arguments).is_ok());
}

#[test]
fn header_name_validation_matches_the_token_grammar() {
    // 65535 token characters is the longest name the grammar accepts, and
    // the real header map agrees.
    let longest = "a".repeat(65535);
    assert!(parse_headers(vec![format!("{longest}:v")]).is_ok());
    let mut arguments = arguments_for("http://127.0.0.1:80/", None);
    arguments.headers = Some(vec![(longest, "v".to_owned())]);
    assert!(HttpClientBlocking::from_arguments(&arguments).is_ok());
    let too_long = "a".repeat(65536);
    assert_eq!(
        parse_headers(vec![format!("{too_long}:v")]),
        Err(ErrorType::InvalidHeaderName)
    );
    assert_eq!(
        parse_headers(vec![":v".to_owned()]),
        Err(ErrorType::InvalidHeaderName)
    );
    assert_eq!(
        parse_headers(vec!["na\u{e9}me:v".to_owned()]),
        Err(ErrorType::InvalidHeaderName)
    );
}
