use newsapi::{
    decode, decode_article, judge, map_parsing_err, settle, Article, NewsAPI, NewsApiError,
    NewsApiResponse, Reply,
};

fn article(n: usize, described: bool) -> Article {
    Article::new(
        format!("title {}", n),
        format!("https://example.org/{}", n),
        if described { Some(format!("about {}", n)) } else { None },
    )
}

fn body(status: &str, count: usize, code: Option<&str>) -> String {
    let mut items = Vec::new();
    for n in 0..count {
        let description = if n % 2 == 0 { format!("\"about {}\"", n) } else { "null".to_string() };
        items.push(format!(
            "{{\"title\": \"title {}\", \"url\": \"https://example.org/{}\", \"description\": {}}}",
            n, n, description
        ));
    }
    let code = match code {
        Some(c) => format!("\"{}\"", c),
        None => "null".to_string(),
    };
    format!(
        "{{\"status\": \"{}\", \"articles\": [{}], \"code\": {}}}",
        status,
        items.join(", "),
        code
    )
}

fn envelope(status: &str, count: usize, code: Option<&str>) -> NewsApiResponse {
    let mut articles = Vec::new();
    for n in 0..count {
        articles.push(article(n, n % 2 == 0));
    }
    NewsApiResponse::new(status.to_string(), articles, code.map(String::from))
}

#[test]
fn article_getters_give_the_fields() {
    let a = Article::new("t".to_string(), "u".to_string(), Some("d".to_string()));
    assert_eq!(a.title(), "t");
    assert_eq!(a.url(), "u");
    assert_eq!(a.desc(), Some(&"d".to_string()));
    let b = Article::new("t".to_string(), "u".to_string(), None);
    assert_eq!(b.desc(), None);
}

#[test]
fn envelope_getters_give_the_fields() {
    let e = envelope("error", 2, Some("apiKeyDisable"));
    assert_eq!(e.status(), "error");
    assert_eq!(e.code(), Some(&"apiKeyDisable".to_string()));
    assert_eq!(e.articles().len(), 2);
    assert_eq!(e.articles.len(), 2);
    assert!(!e.is_ok());
    assert!(envelope("ok", 0, None).is_ok());
    assert!(!envelope("OK", 0, None).is_ok());
    assert!(!envelope("", 0, None).is_ok());
    assert_eq!(e.take_code(), Some("apiKeyDisable".to_string()));
}

#[test]
fn ok_envelope_gives_every_article_in_order() {
    let fetched = NewsAPI::new("k").fetch(Reply::Body(body("ok", 5, None))).unwrap();
    let articles = fetched.articles();
    assert_eq!(articles.len(), 5);
    for (n, a) in articles.iter().enumerate() {
        assert_eq!(a.title(), format!("title {}", n));
        assert_eq!(a.url(), format!("https://example.org/{}", n));
        if n % 2 == 0 {
            assert_eq!(a.desc(), Some(&format!("about {}", n)));
        } else {
            assert_eq!(a.desc(), None);
        }
    }
}

#[test]
fn ok_envelope_without_articles_is_a_success() {
    let fetched = NewsAPI::new("k").fetch(Reply::Body(body("ok", 0, None))).unwrap();
    assert!(fetched.articles().is_empty());
    assert_eq!(fetched.status(), "ok");
    assert_eq!(fetched.code(), None);
}

#[test]
fn ok_envelope_ignores_a_code() {
    let fetched = judge(Reply::Body(body("ok", 1, Some("apiKeyDisable")))).unwrap();
    assert_eq!(fetched.articles().len(), 1);
    let settled = settle(envelope("ok", 2, Some("apiKeyDisable"))).unwrap();
    assert_eq!(settled.articles().len(), 2);
}

#[test]
fn disabled_key_is_told_apart() {
    let r = NewsAPI::new("k").fetch(Reply::Body(body("error", 0, Some("apiKeyDisable"))));
    assert_eq!(
        r.unwrap_err(),
        NewsApiError::BadRequest("Your API key has been disables")
    );
    assert_eq!(
        settle(envelope("error", 0, Some("apiKeyDisable"))).unwrap_err(),
        NewsApiError::BadRequest("Your API key has been disables")
    );
}

#[test]
fn other_codes_and_no_code_are_unknown_errors() {
    for code in [Some("apiKeyInvalid"), Some("rateLimited"), Some(""), Some("apikeydisable"), None] {
        let r = NewsAPI::new("k").fetch(Reply::Body(body("error", 3, code)));
        assert_eq!(r.unwrap_err(), NewsApiError::BadRequest("Unknown error"));
        let s = settle(envelope("error", 3, code));
        assert_eq!(s.unwrap_err(), NewsApiError::BadRequest("Unknown error"));
    }
}

#[test]
fn any_status_but_ok_is_a_rejection() {
    for status in ["error", "OK", "", "ok "] {
        let r = judge(Reply::Body(body(status, 1, None)));
        assert_eq!(r.unwrap_err(), NewsApiError::BadRequest("Unknown error"));
    }
}

#[test]
fn missing_code_and_description_count_as_none() {
    let text = r#"{"articles": [{"url": "u", "title": "t"}], "status": "ok"}"#;
    let envelope = decode(text).unwrap();
    assert_eq!(envelope.code(), None);
    assert_eq!(envelope.articles()[0].title(), "t");
    assert_eq!(envelope.articles()[0].url(), "u");
    assert_eq!(envelope.articles()[0].desc(), None);
}

#[test]
fn members_that_are_not_asked_for_do_not_count() {
    let text = r#" { "status" : "error", "message": "no", "totalResults": 0, "articles": [],
        "code": "apiKeyDisable", "extra": {"status": 1} } "#;
    let envelope = decode(text).unwrap();
    assert_eq!(envelope.status(), "error");
    assert_eq!(envelope.code(), Some(&"apiKeyDisable".to_string()));
    assert!(envelope.articles().is_empty());
}

#[test]
fn strings_are_read_as_json_writes_them() {
    let a = decode_article(r#"{"title": "a \"b\" \u00e9\n", "url": "u\/v", "description": ""}"#)
        .unwrap();
    assert_eq!(a.title(), "a \"b\" \u{e9}\n");
    assert_eq!(a.url(), "u/v");
    assert_eq!(a.desc(), Some(&String::new()));
}

#[test]
fn article_needs_title_and_url_as_strings() {
    assert!(decode_article(r#"{"title": "t", "url": "u", "description": null}"#).is_some());
    assert!(decode_article(r#"{"url": "u"}"#).is_none());
    assert!(decode_article(r#"{"title": "t"}"#).is_none());
    assert!(decode_article(r#"{"title": null, "url": "u"}"#).is_none());
    assert!(decode_article(r#"{"title": "t", "url": 5}"#).is_none());
    assert!(decode_article(r#"{"title": "t", "url": "u", "description": 5}"#).is_none());
    assert!(decode_article(r#"{"title": "t", "url": "u", "description": ["d"]}"#).is_none());
    assert!(decode_article(r#"["t", "u", null]"#).is_none());
    assert!(decode_article("null").is_none());
}

#[test]
fn body_that_is_no_json_is_a_decode_error() {
    for text in ["", "not json", "<html></html>", "{", r#"{"status": "ok", "articles": []"#,
        r#"{"status": "ok", "articles": []} trailing"#]
    {
        assert_eq!(decode(text).unwrap_err(), NewsApiError::ArticleParseFailed);
        let r = NewsAPI::new("k").fetch(Reply::Body(text.to_string()));
        assert_eq!(r.unwrap_err(), NewsApiError::ArticleParseFailed);
    }
}

#[test]
fn body_that_is_no_envelope_is_a_decode_error() {
    for text in [
        "null",
        "[]",
        "5",
        r#""ok""#,
        "{}",
        r#"{"status": "ok"}"#,
        r#"{"articles": []}"#,
        r#"{"status": 1, "articles": []}"#,
        r#"{"status": null, "articles": []}"#,
        r#"{"status": "ok", "articles": null}"#,
        r#"{"status": "ok", "articles": {}}"#,
        r#"{"status": "ok", "articles": [], "code": 7}"#,
        r#"{"status": "ok", "articles": [1]}"#,
        r#"{"status": "ok", "articles": [{"title": "t"}]}"#,
        r#"{"status": "ok", "articles": [{"title": "t", "url": "u"}, {"title": "t"}]}"#,
        r#"{"status": "error", "code": "apiKeyDisable", "articles": [{}]}"#,
    ] {
        assert_eq!(decode(text).unwrap_err(), NewsApiError::ArticleParseFailed);
        let r = judge(Reply::Body(text.to_string()));
        assert_eq!(r.unwrap_err(), NewsApiError::ArticleParseFailed);
    }
}

#[test]
fn failures_on_the_way_keep_their_own_errors() {
    assert_eq!(judge(Reply::TransportFailed).unwrap_err(), NewsApiError::RequestFailed);
    assert_eq!(
        judge(Reply::AsyncTransportFailed).unwrap_err(),
        NewsApiError::AsyncRequestFailed
    );
    assert_eq!(
        judge(Reply::BodyUnreadable).unwrap_err(),
        NewsApiError::ResponseToStringFailed
    );
}

#[test]
fn map_parsing_err_reads_the_code() {
    assert_eq!(
        map_parsing_err(Some("apiKeyDisable".to_string())),
        NewsApiError::BadRequest("Your API key has been disables")
    );
    assert_eq!(
        map_parsing_err(Some("other".to_string())),
        NewsApiError::BadRequest("Unknown error")
    );
    assert_eq!(map_parsing_err(None), NewsApiError::BadRequest("Unknown error"));
}

#[test]
fn errors_have_their_messages() {
    assert_eq!(NewsApiError::RequestFailed.message(), "Failed fetching articles");
    assert_eq!(
        NewsApiError::ResponseToStringFailed.message(),
        "Failed converting response to string"
    );
    assert_eq!(NewsApiError::ArticleParseFailed.message(), "Article Parsing failed");
    assert_eq!(NewsApiError::UrlParseingFailed.message(), "Url Parsing failed");
    assert_eq!(
        NewsApiError::BadRequest("Unknown error").message(),
        "Request failed: Unknown error"
    );
    assert_eq!(NewsApiError::AsyncRequestFailed.message(), "Async Request failed");
}
