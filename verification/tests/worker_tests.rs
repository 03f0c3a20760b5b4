use newsapi::{
    fetch_news, news_card, Action, Article, Msg, NewsCardData, QuickNews, QuickNewsConfig, Reply,
    Worker, WorkerState,
};

fn ok_reply(titles: &[&str]) -> Reply {
    let mut items = Vec::new();
    for t in titles {
        items.push(format!(
            "{{\"title\": \"{}\", \"url\": \"https://example.org/{}\"}}",
            t, t
        ));
    }
    Reply::Body(format!(
        "{{\"status\": \"ok\", \"articles\": [{}]}}",
        items.join(",")
    ))
}

fn titles(cards: &[NewsCardData]) -> Vec<String> {
    cards.iter().map(|c| c.title.clone()).collect()
}

fn due_key(worker: &Worker) -> Option<String> {
    match worker.action() {
        Action::Fetch(key) => Some(key),
        Action::Wait => None,
    }
}

#[test]
fn card_copies_the_fields() {
    let a = Article::new("t".to_string(), "u".to_string(), Some("d".to_string()));
    let card = news_card(&a);
    assert_eq!(card.title, "t");
    assert_eq!(card.url, "u");
    assert_eq!(card.description, "d");
}

#[test]
fn card_without_description_gets_the_placeholder() {
    let a = Article::new("t".to_string(), "u".to_string(), None);
    assert_eq!(news_card(&a).description, "...");
    let b = Article::new("t".to_string(), "u".to_string(), Some(String::new()));
    assert_eq!(news_card(&b).description, "");
}

#[test]
fn fetch_news_appends_every_card_in_order() {
    let mut news = Vec::new();
    fetch_news("k", ok_reply(&["a", "b", "c"]), &mut news);
    assert_eq!(titles(&news), vec!["a", "b", "c"]);
    assert_eq!(news[1].url, "https://example.org/b");
    assert_eq!(news[1].description, "...");
}

#[test]
fn fetch_news_that_fails_adds_nothing() {
    let mut news = Vec::new();
    assert!(fetch_news("k", ok_reply(&["a"]), &mut news));
    assert!(!fetch_news("k", Reply::Body("no json".to_string()), &mut news));
    assert!(!fetch_news("k", Reply::TransportFailed, &mut news));
    let rejected = r#"{"status": "error", "code": "apiKeyDisable",
        "articles": [{"title": "x", "url": "y"}]}"#;
    assert!(!fetch_news("k", Reply::Body(rejected.to_string()), &mut news));
    let half = r#"{"status": "ok", "articles": [{"title": "x", "url": "y"}, {"title": "z"}]}"#;
    assert!(!fetch_news("k", Reply::Body(half.to_string()), &mut news));
    assert_eq!(titles(&news), vec!["a"]);
}

#[test]
fn start_with_a_key_fetches_once() {
    let mut worker = Worker::new("k0".to_string());
    assert_eq!(worker.state(), WorkerState::Fetching);
    assert_eq!(due_key(&worker), Some("k0".to_string()));
    let mut news = Vec::new();
    assert!(worker.complete(ok_reply(&["a"]), &mut news));
    assert_eq!(worker.state(), WorkerState::Idle);
    assert_eq!(due_key(&worker), None);
    assert_eq!(titles(&news), vec!["a"]);
}

#[test]
fn start_without_a_key_waits() {
    let mut worker = Worker::new(String::new());
    assert_eq!(worker.state(), WorkerState::AwaitingKey);
    assert_eq!(worker.key(), None);
    assert_eq!(due_key(&worker), None);
    worker.receive(Msg::Refresh);
    assert_eq!(worker.state(), WorkerState::AwaitingKey);
    assert_eq!(due_key(&worker), None);
    worker.receive(Msg::ApiKeySet("k1".to_string()));
    assert_eq!(worker.state(), WorkerState::Fetching);
    assert_eq!(due_key(&worker), Some("k1".to_string()));
}

#[test]
fn set_key_then_refresh_fetches_twice_with_that_key() {
    let mut worker = Worker::new(String::new());
    let mut news = Vec::new();
    worker.receive(Msg::ApiKeySet("k1".to_string()));
    assert_eq!(due_key(&worker), Some("k1".to_string()));
    worker.complete(ok_reply(&["a", "b"]), &mut news);
    assert_eq!(due_key(&worker), None);
    worker.receive(Msg::Refresh);
    assert_eq!(due_key(&worker), Some("k1".to_string()));
    worker.complete(ok_reply(&["a", "c"]), &mut news);
    assert_eq!(worker.state(), WorkerState::Idle);
    assert_eq!(worker.key(), Some(&"k1".to_string()));
    assert_eq!(titles(&news), vec!["a", "b", "a", "c"]);
}

#[test]
fn new_key_replaces_the_old_one() {
    let mut worker = Worker::new("k0".to_string());
    let mut news = Vec::new();
    assert!(!worker.complete(Reply::TransportFailed, &mut news));
    assert!(news.is_empty());
    assert_eq!(worker.state(), WorkerState::Idle);
    worker.receive(Msg::ApiKeySet("k2".to_string()));
    assert_eq!(due_key(&worker), Some("k2".to_string()));
    worker.complete(Reply::Body("{}".to_string()), &mut news);
    worker.receive(Msg::Refresh);
    assert_eq!(due_key(&worker), Some("k2".to_string()));
    assert!(news.is_empty());
}

#[test]
fn display_starts_empty() {
    let q = QuickNews::new();
    assert!(q.articles.is_empty());
    assert!(!q.api_key_init);
    assert!(!q.configure.dark_mode);
    assert_eq!(q.configure.api_key, "");
    let c = QuickNewsConfig::default();
    assert!(!c.dark_mode);
    assert_eq!(c.api_key, "");
}

#[test]
fn display_takes_in_one_card_at_a_time() {
    let mut q = QuickNews::new();
    q.preload_articles(None);
    assert!(q.articles.is_empty());
    let mut news = Vec::new();
    fetch_news("k", ok_reply(&["a", "b"]), &mut news);
    for card in news {
        q.preload_articles(Some(card));
        q.preload_articles(None);
    }
    assert_eq!(titles(&q.articles), vec!["a", "b"]);
    assert!(!q.api_key_init);
}
