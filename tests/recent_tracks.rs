use rustfm::{classify, parse_json, Client, ClientError, Json, ParseError, RecentTracks};

fn make_client() -> Client {
    Client::new(
        "http://ws.audioscrobbler.com/2.0/".to_string(),
        "SECRET-REDACTED".to_string(),
    )
}

const ONE_TRACK: &str = r##"{"recenttracks":{"track":[{"artist":{"mbid":"a1","#text":"Daft Punk"},"name":"Veridis Quo","streamable":"0","mbid":"","album":{"mbid":"b2","#text":"Discovery"},"url":"https://www.last.fm/music/Daft+Punk/_/Veridis+Quo","image":[{"size":"small","#text":"https://img/s.png"},{"size":"large","#text":"https://img/l.png"}],"date":{"uts":"1500000000","#text":"14 Jul 2017, 02:40"}}],"@attr":{"user":"RoxasShadow","page":"1","perPage":"1","totalPages":"10","total":"10"}}}"##;

fn pairs(client: &Client, extra: &[(&str, &str)]) -> Vec<(String, String)> {
    let mut v = vec![
        ("api_key".to_string(), client.api_key.clone()),
        ("format".to_string(), "json".to_string()),
    ];
    for (k, x) in extra {
        v.push((k.to_string(), x.to_string()));
    }
    v
}

fn value<'a>(entries: &'a [(String, String)], key: &str) -> Option<&'a str> {
    entries.iter().find(|(k, _)| k == key).map(|(_, v)| v.as_str())
}

#[test]
fn test_recent_tracks() {
    let client = make_client();
    let builder = client.recent_tracks("RoxasShadow").with_limit(1);
    assert_eq!(
        builder.target.params,
        pairs(
            &client,
            &[("method", "user.getRecentTracks"), ("user", "RoxasShadow"), ("limit", "1")]
        )
    );
    let recent_tracks = builder.send(Ok(ONE_TRACK.as_bytes().to_vec()));
    assert!(recent_tracks.is_ok());
}

#[test]
fn test_recent_tracks_not_found() {
    let client = make_client();
    let builder = client.recent_tracks("nonesistinonesistinonesisti");
    let body = r#"{"message":"User not found","error":6,"links":[]}"#;
    let recent_tracks = builder.send(Ok(body.as_bytes().to_vec()));
    match recent_tracks {
        Err(ClientError::Service(e)) => {
            assert_eq!(e.error, 6);
            assert_eq!(e.message, "User not found");
            assert!(e.links.is_empty());
        }
        other => panic!("expected a service error, got {:?}", other),
    }
}

#[test]
fn success_mirrors_the_document() {
    let tracks: RecentTracks = classify(ONE_TRACK.as_bytes()).unwrap();
    assert_eq!(tracks.tracks.len(), 1);
    let t = &tracks.tracks[0];
    assert_eq!(t.name, "Veridis Quo");
    assert_eq!(t.url, "https://www.last.fm/music/Daft+Punk/_/Veridis+Quo");
    assert_eq!(value(&t.artist.entries, "#text"), Some("Daft Punk"));
    assert_eq!(value(&t.artist.entries, "mbid"), Some("a1"));
    assert_eq!(value(&t.album.entries, "#text"), Some("Discovery"));
    assert_eq!(t.images.len(), 2);
    assert_eq!(value(&t.images[0].entries, "size"), Some("small"));
    assert_eq!(value(&t.images[1].entries, "#text"), Some("https://img/l.png"));
    let date = t.date.as_ref().unwrap();
    assert_eq!(value(&date.entries, "uts"), Some("1500000000"));
}

#[test]
fn limit_one_gives_a_named_track_with_url() {
    let client = make_client();
    let r = client.recent_tracks("RoxasShadow").with_limit(1).send(Ok(ONE_TRACK.as_bytes().to_vec()));
    let tracks = r.unwrap();
    assert!(!tracks.tracks.is_empty());
    assert!(!tracks.tracks[0].name.is_empty());
    assert!(!tracks.tracks[0].url.is_empty());
}

#[test]
fn error_envelope_wins_over_result_shape() {
    let body = r#"{"error":10,"message":"Invalid API key","recenttracks":{"track":[]}}"#;
    match classify(body.as_bytes()) {
        Err(ClientError::Service(e)) => {
            assert_eq!(e.error, 10);
            assert_eq!(e.message, "Invalid API key");
        }
        other => panic!("expected a service error, got {:?}", other),
    }
}

#[test]
fn envelope_links_are_kept() {
    let body = r#"{"error":29,"message":"Rate limit exceeded","links":["a","b"]}"#;
    match classify(body.as_bytes()) {
        Err(ClientError::Service(e)) => assert_eq!(e.links, vec!["a".to_string(), "b".to_string()]),
        other => panic!("expected a service error, got {:?}", other),
    }
}

#[test]
fn text_that_is_not_json_is_a_syntax_failure() {
    assert!(matches!(
        classify("<html>Bad Gateway</html>".as_bytes()),
        Err(ClientError::ParseFailure(ParseError::Syntax(_)))
    ));
    assert!(matches!(
        classify("".as_bytes()),
        Err(ClientError::ParseFailure(ParseError::Syntax(_)))
    ));
}

#[test]
fn json_of_neither_shape_is_a_parse_failure() {
    for body in [
        "[1,2,3]",
        "\"text\"",
        "42",
        r#"{"recenttracks":{"track":5}}"#,
        r#"{"recenttracks":{}}"#,
        r#"{"recenttracks":{"track":[{"name":"x"}]}}"#,
        r##"{"recenttracks":{"track":[{"artist":{"#text":1},"name":"n","album":{},"url":"u","image":[]}]}}"##,
    ] {
        assert!(
            matches!(
                classify(body.as_bytes()),
                Err(ClientError::ParseFailure(ParseError::UnexpectedShape(_)))
            ),
            "{}",
            body
        );
    }
}

#[test]
fn wrapper_without_result_is_missing_field() {
    assert!(matches!(classify(r#"{"user":{}}"#.as_bytes()), Err(ClientError::MissingField)));
    assert!(matches!(classify("{}".as_bytes()), Err(ClientError::MissingField)));
    assert!(matches!(classify(r#"{"recenttracks":null}"#.as_bytes()), Err(ClientError::MissingField)));
}

#[test]
fn repeated_key_keeps_the_last() {
    let body = r#"{"recenttracks":{"track":[]},"recenttracks":null}"#;
    assert!(matches!(classify(body.as_bytes()), Err(ClientError::MissingField)));
}

#[test]
fn broken_envelope_is_not_a_service_error() {
    // the code does not fit an i32, so the body is read as the wrapper
    let body = r#"{"error":4294967296,"message":"m"}"#;
    assert!(matches!(classify(body.as_bytes()), Err(ClientError::MissingField)));
    // a link that is not a string
    let body = r#"{"error":6,"message":"m","links":[1]}"#;
    assert!(matches!(classify(body.as_bytes()), Err(ClientError::MissingField)));
    // a message that is not a string
    let body = r#"{"error":6,"message":7}"#;
    assert!(matches!(classify(body.as_bytes()), Err(ClientError::MissingField)));
}

#[test]
fn date_may_be_absent_or_null() {
    let absent = r#"{"recenttracks":{"track":[{"artist":{},"name":"n","album":{},"url":"u","image":[]}]}}"#;
    let null = r#"{"recenttracks":{"track":[{"artist":{},"name":"n","album":{},"url":"u","image":[],"date":null}]}}"#;
    assert!(classify(absent.as_bytes()).unwrap().tracks[0].date.is_none());
    assert!(classify(null.as_bytes()).unwrap().tracks[0].date.is_none());
    let bad = r#"{"recenttracks":{"track":[{"artist":{},"name":"n","album":{},"url":"u","image":[],"date":"x"}]}}"#;
    assert!(matches!(
        classify(bad.as_bytes()),
        Err(ClientError::ParseFailure(ParseError::UnexpectedShape(_)))
    ));
}

#[test]
fn empty_track_list_is_a_result() {
    let r = classify(r#"{"recenttracks":{"track":[]}}"#.as_bytes()).unwrap();
    assert!(r.tracks.is_empty());
}

#[test]
fn transport_failure_is_reported() {
    let client = make_client();
    let r = client.recent_tracks("someone").send(Err("connection refused".to_string()));
    match r {
        Err(ClientError::Transport(m)) => assert_eq!(m, "connection refused"),
        other => panic!("expected a transport error, got {:?}", other),
    }
}

#[test]
fn setters_commute_up_to_order() {
    let client = make_client();
    let a = client.recent_tracks("u").with_limit(1).with_page(2).target.params;
    let b = client.recent_tracks("u").with_page(2).with_limit(1).target.params;
    assert_ne!(a, b);
    let mut sa = a.clone();
    let mut sb = b.clone();
    sa.sort();
    sb.sort();
    assert_eq!(sa, sb);
}

#[test]
fn numbers_are_sent_in_decimal() {
    let client = make_client();
    let b = client.recent_tracks("u").with_limit(1200).with_page(0).with_page(4294967295);
    let n = b.target.params.len();
    assert_eq!(b.target.params[n - 3], ("limit".to_string(), "1200".to_string()));
    assert_eq!(b.target.params[n - 2], ("page".to_string(), "0".to_string()));
    assert_eq!(b.target.params[n - 1], ("page".to_string(), "4294967295".to_string()));
}

#[test]
fn build_url_puts_key_and_format_first() {
    let client = make_client();
    let t = client.build_url(vec![("method".to_string(), "m".to_string())]);
    assert_eq!(t.base_url, "http://ws.audioscrobbler.com/2.0/");
    assert_eq!(t.params, pairs(&client, &[("method", "m")]));
    let b = RecentTracks::build(&client, "RoxasShadow");
    assert_eq!(
        b.target.params,
        pairs(&client, &[("method", "user.getRecentTracks"), ("user", "RoxasShadow")])
    );
}

#[test]
fn parse_json_models_the_document() {
    match parse_json(br#"{"a":[1,-2,3.5,"s",true,null,18446744073709551615]}"#).unwrap() {
        Json::Object(entries) => {
            assert_eq!(entries.len(), 1);
            assert_eq!(entries[0].0, "a");
            match &entries[0].1 {
                Json::Array(items) => {
                    assert_eq!(items.len(), 7);
                    assert!(matches!(items[0], Json::Int(1)));
                    assert!(matches!(items[1], Json::Int(-2)));
                    assert!(matches!(&items[2], Json::OtherNumber(t) if t == "3.5"));
                    assert!(matches!(&items[3], Json::Str(s) if s == "s"));
                    assert!(matches!(items[4], Json::Bool(true)));
                    assert!(matches!(items[5], Json::Null));
                    assert!(matches!(&items[6], Json::OtherNumber(t) if t == "18446744073709551615"));
                }
                other => panic!("expected an array, got {:?}", other),
            }
        }
        other => panic!("expected an object, got {:?}", other),
    }
}

#[test]
fn deep_nesting_is_a_syntax_failure() {
    let body = format!("{}{}", "[".repeat(300), "]".repeat(300));
    assert!(matches!(
        classify(body.as_bytes()),
        Err(ClientError::ParseFailure(ParseError::Syntax(_)))
    ));
}

#[test]
fn bytes_that_are_not_utf8_are_a_syntax_failure() {
    let body: Vec<u8> = vec![b'{', b'"', 0xff, 0xfe, b'"', b':', b'1', b'}'];
    let client = make_client();
    assert!(matches!(
        client.recent_tracks("u").send(Ok(body)),
        Err(ClientError::ParseFailure(ParseError::Syntax(_)))
    ));
}

#[test]
fn shape_failures_carry_a_diagnostic() {
    match classify(b"[1]") {
        Err(ClientError::ParseFailure(ParseError::UnexpectedShape(d))) => {
            assert_eq!(d, "expected a JSON object")
        }
        other => panic!("expected a shape failure, got {:?}", other),
    }
    match classify(br#"{"recenttracks":{"track":5}}"#) {
        Err(ClientError::ParseFailure(ParseError::UnexpectedShape(d))) => {
            assert_eq!(d, "`recenttracks` holds no well-formed `track` array")
        }
        other => panic!("expected a shape failure, got {:?}", other),
    }
    match classify(b"nope") {
        Err(ClientError::ParseFailure(ParseError::Syntax(d))) => assert!(!d.is_empty()),
        other => panic!("expected a syntax failure, got {:?}", other),
    }
}
