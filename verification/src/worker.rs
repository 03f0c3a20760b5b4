//! The worker that decides when to fetch, and what it hands to the display.
//!
//! The worker is a state machine. It starts with a fetch where it was given
//! a key, and waits for one where it was not. A message that sets the key
//! starts a fetch with that key; a message that asks for a refresh starts
//! one with the key held, and does nothing where none is held. Whoever runs
//! the worker sends the request that `Worker::action` names and hands what
//! came back to `Worker::complete`.

use vstd::prelude::*;
use vstd::string::StringExecFns;
use crate::article::{article_views, Article, ArticleView};
use crate::request::{fetched, built_url, NewsAPI, Reply, BASE_URL, Endpoint, Country};

verus! {

/// What the display tells the worker.
#[derive(Debug)]
pub enum Msg {
    /// Here is the key; fetch with it from now on.
    ApiKeySet(String),
    /// Fetch again.
    Refresh,
}

/// A message as plain values.
pub enum MsgView {
    ApiKeySet(Seq<char>),
    Refresh,
}

impl View for Msg {
    type V = MsgView;

    open spec fn view(&self) -> MsgView {
        match *self {
            Msg::ApiKeySet(key) => MsgView::ApiKeySet(key@),
            Msg::Refresh => MsgView::Refresh,
        }
    }
}

/// What a news card is, as plain values.
pub struct NewsCardView {
    pub title: Seq<char>,
    pub description: Seq<char>,
    pub url: Seq<char>,
}

/// One article as the display shows it.
#[derive(Debug)]
pub struct NewsCardData {
    pub title: String,
    pub description: String,
    pub url: String,
}

impl View for NewsCardData {
    type V = NewsCardView;

    open spec fn view(&self) -> NewsCardView {
        NewsCardView { title: self.title@, description: self.description@, url: self.url@ }
    }
}

/// The description shown for an article that has none.
pub open spec fn placeholder() -> Seq<char> {
    "..."@
}

/// The card of an article: title and address as they are, and the
/// description, or the placeholder where there is none.
pub open spec fn card_of(article: ArticleView) -> NewsCardView {
    NewsCardView {
        title: article.title,
        description: match article.description {
            Some(d) => d,
            None => placeholder(),
        },
        url: article.url,
    }
}

/// The cards of some articles, one for each, in the same order.
pub open spec fn cards_of(articles: Seq<ArticleView>) -> Seq<NewsCardView> {
    articles.map_values(|a: ArticleView| card_of(a))
}

/// Some cards as plain values, in the same order.
pub open spec fn card_views(cards: Seq<NewsCardData>) -> Seq<NewsCardView> {
    cards.map_values(|c: NewsCardData| c@)
}

/// The cards that one fetch brings: those of all its articles where it
/// succeeded, none where it failed.
pub open spec fn delivered(has_address: bool, reply: Reply) -> Seq<NewsCardView> {
    match fetched(has_address, reply) {
        Ok(envelope) => cards_of(envelope.articles),
        Err(_) => Seq::empty(),
    }
}

/// Whether the fixed base address gives a client with the default settings
/// an address to ask.
pub open spec fn has_address() -> bool {
    built_url(BASE_URL@, Endpoint::TopHeadlines, Country::In) is Some
}

/// Makes the card of one article.
pub fn news_card(article: &Article) -> (card: NewsCardData)
    ensures
        card@ == card_of(article@),
{
    let description = match article.desc() {
        Some(d) => d.clone(),
        None => String::from_str("..."),
    };
    NewsCardData {
        title: String::from_str(article.title()),
        description,
        url: String::from_str(article.url()),
    }
}

/// One fetch with the given key, from the reply to the cards. Where the
/// fetch succeeds, the card of each article is put behind those that `news`
/// already holds, in the order of the articles; where it fails, `news` stays
/// as it is. Nothing that was there is removed or changed either way.
/// The result tells whether the fetch succeeded, for whoever keeps a log.
pub fn fetch_news(api_key: &str, reply: Reply, news: &mut Vec<NewsCardData>) -> (done: bool)
    ensures
        done == (fetched(has_address(), reply) is Ok),
        card_views(final(news)@) == card_views(old(news)@) + delivered(has_address(), reply),
        final(news)@.len() >= old(news)@.len(),
        final(news)@.subrange(0, old(news)@.len() as int) == old(news)@,
{
    let ghost before = news@;
    match NewsAPI::new(api_key).fetch(reply) {
        Ok(response) => {
            let articles = response.articles();
            proof {
                response.held_views();
            }
            let mut i: usize = 0;
            while i < articles.len()
                invariant
                    i <= articles@.len(),
                    news@.len() == before.len() + i,
                    news@.subrange(0, before.len() as int) == before,
                    card_views(news@) == card_views(before) + cards_of(
                        article_views(articles@),
                    ).subrange(0, i as int),
                decreases articles@.len() - i,
            {
                let card = news_card(&articles[i]);
                let ghost prev = news@;
                news.push(card);
                proof {
                    assert(news@.subrange(0, before.len() as int) =~= prev.subrange(
                        0,
                        before.len() as int,
                    ));
                    assert(card_views(news@) =~= card_views(prev).push(card@));
                    assert(cards_of(article_views(articles@)).subrange(0, i + 1) =~= cards_of(
                        article_views(articles@),
                    ).subrange(0, i as int).push(card_of(articles@[i as int]@)));
                }
                i += 1;
            }
            proof {
                assert(cards_of(article_views(articles@)).subrange(0, i as int) =~= cards_of(
                    article_views(articles@),
                ));
            }
            true
        },
        Err(_) => {
            proof {
                assert(news@.subrange(0, before.len() as int) =~= before);
                assert(card_views(before) + Seq::<NewsCardView>::empty() =~= card_views(before));
            }
            false
        },
    }
}

/// Where the worker stands.
#[derive(Debug, Clone, Copy, PartialEq, Eq, Structural)]
pub enum WorkerState {
    /// No key is held; nothing is fetched until one comes.
    AwaitingKey,
    /// A fetch with the key held is due or under way.
    Fetching,
    /// A key is held, and the worker waits for a message.
    Idle,
}

/// What the worker asks of whoever runs it.
#[derive(Debug)]
pub enum Action {
    /// Take the next message and hand it to `Worker::receive`.
    Wait,
    /// Send one request with this key and hand what came back to
    /// `Worker::complete`.
    Fetch(String),
}

/// What a worker is, as plain values.
pub struct WorkerView {
    pub state: WorkerState,
    pub key: Option<Seq<char>>,
}

impl WorkerView {
    /// A key is held exactly when the worker is not waiting for one.
    pub open spec fn wf(self) -> bool {
        (self.state == WorkerState::AwaitingKey) <==> (self.key is None)
    }

    /// The worker as it starts: fetching where it was given a key that is
    /// not empty, and waiting for a key where it was not.
    pub open spec fn started(api_key: Seq<char>) -> WorkerView {
        if api_key.len() > 0 {
            WorkerView { state: WorkerState::Fetching, key: Some(api_key) }
        } else {
            WorkerView { state: WorkerState::AwaitingKey, key: None }
        }
    }

    /// The worker after a message. A new key replaces the one held and
    /// starts a fetch. A refresh starts a fetch where a key is held, and
    /// changes nothing where none is.
    pub open spec fn received(self, msg: MsgView) -> WorkerView {
        match msg {
            MsgView::ApiKeySet(key) => WorkerView { state: WorkerState::Fetching, key: Some(key) },
            MsgView::Refresh => if self.key is Some {
                WorkerView { state: WorkerState::Fetching, key: self.key }
            } else {
                self
            },
        }
    }

    /// The worker after a fetch: the same key, and at rest.
    pub open spec fn completed(self) -> WorkerView {
        WorkerView { state: WorkerState::Idle, key: self.key }
    }

    /// The key of the fetch that is due, where one is.
    pub open spec fn due(self) -> Option<Seq<char>> {
        if self.state == WorkerState::Fetching {
            self.key
        } else {
            None
        }
    }
}

/// A worker that starts with a key that is not empty has one fetch due,
/// with that key, and none once that fetch has ended. One that starts with
/// an empty key has no fetch due, a refresh leaves it so, and the first key
/// that comes makes a fetch with that key due.
pub proof fn start_fetches_once_with_a_key(api_key: Seq<char>, later: Seq<char>)
    ensures
        WorkerView::started(api_key).wf(),
        api_key.len() > 0 ==> WorkerView::started(api_key).due() == Some(api_key),
        api_key.len() > 0 ==> WorkerView::started(api_key).completed().due() is None,
        api_key.len() == 0 ==> WorkerView::started(api_key).due() is None,
        api_key.len() == 0 ==> WorkerView::started(api_key).received(MsgView::Refresh)
            == WorkerView::started(api_key),
        api_key.len() == 0 ==> WorkerView::started(api_key).received(
            MsgView::ApiKeySet(later),
        ).due() == Some(later),
{
}

/// A worker at rest or waiting, given a key and then asked to refresh,
/// fetches twice, both times with that key, and holds the key afterwards.
pub proof fn set_key_then_refresh_fetches_twice(worker: WorkerView, key: Seq<char>)
    requires
        worker.wf(),
        worker.state != WorkerState::Fetching,
    ensures
        worker.received(MsgView::ApiKeySet(key)).due() == Some(key),
        worker.received(MsgView::ApiKeySet(key)).completed().due() is None,
        worker.received(MsgView::ApiKeySet(key)).completed().received(MsgView::Refresh).due()
            == Some(key),
        worker.received(MsgView::ApiKeySet(key)).completed().received(
            MsgView::Refresh,
        ).completed() == (WorkerView { state: WorkerState::Idle, key: Some(key) }),
{
}

/// Every step keeps the worker well formed.
pub proof fn steps_keep_well_formed(worker: WorkerView, msg: MsgView)
    requires
        worker.wf(),
    ensures
        worker.received(msg).wf(),
        worker.state == WorkerState::Fetching ==> worker.completed().wf(),
{
}

/// What two fetches in a row leave in the output is what was there, then
/// the cards of the first, then the cards of the second: nothing is
/// removed, cleared or merged between cycles.
pub proof fn two_cycles_accumulate(
    before: Seq<NewsCardView>,
    between: Seq<NewsCardView>,
    after: Seq<NewsCardView>,
    first: Reply,
    second: Reply,
)
    requires
        between == before + delivered(has_address(), first),
        after == between + delivered(has_address(), second),
    ensures
        after == before + (delivered(has_address(), first) + delivered(has_address(), second)),
        after.subrange(0, before.len() as int) == before,
        after.len() == before.len() + delivered(has_address(), first).len() + delivered(
            has_address(),
            second,
        ).len(),
{
    assert(after =~= before + (delivered(has_address(), first) + delivered(
        has_address(),
        second,
    )));
    assert(after.subrange(0, before.len() as int) =~= before);
}

/// A fetch that succeeds brings one card for each article of the
/// envelope, in the envelope's order, each with the article's title and
/// address, and its description or the placeholder. A fetch that fails
/// brings none.
pub proof fn fetch_brings_all_or_none(has_address: bool, reply: Reply)
    ensures
        match fetched(has_address, reply) {
            Ok(envelope) => {
                &&& delivered(has_address, reply).len() == envelope.articles.len()
                &&& forall|i: int|
                    0 <= i < envelope.articles.len() ==> {
                        let card = #[trigger] delivered(has_address, reply)[i];
                        let article = envelope.articles[i];
                        &&& card.title == article.title
                        &&& card.url == article.url
                        &&& card.description == match article.description {
                            Some(d) => d,
                            None => "..."@,
                        }
                    }
            },
            Err(_) => delivered(has_address, reply).len() == 0,
        },
{
}

/// The worker: its state and the one key that it holds.
#[derive(Debug)]
pub struct Worker {
    state: WorkerState,
    key: Option<String>,
}

impl View for Worker {
    type V = WorkerView;

    closed spec fn view(&self) -> WorkerView {
        WorkerView { state: self.state, key: crate::article::text_of(self.key) }
    }
}

impl Worker {
    #[verifier::type_invariant]
    closed spec fn inv(self) -> bool {
        self@.wf()
    }

    /// A worker that starts with the given key; an empty one is no key.
    pub fn new(api_key: String) -> (w: Worker)
        ensures
            w@ == WorkerView::started(api_key@),
    {
        if api_key.as_str().is_empty() {
            Worker { state: WorkerState::AwaitingKey, key: None }
        } else {
            Worker { state: WorkerState::Fetching, key: Some(api_key) }
        }
    }

    /// Where the worker stands. Every worker is well formed.
    pub fn state(&self) -> (s: WorkerState)
        ensures
            s == self@.state,
            self@.wf(),
    {
        proof {
            use_type_invariant(self);
        }
        self.state
    }

    /// The key held, where there is one.
    pub fn key(&self) -> (k: Option<&String>)
        ensures
            match k {
                Some(s) => self@.key == Some(s@),
                None => self@.key is None,
            },
    {
        self.key.as_ref()
    }

    /// What to do next: a fetch with the key held where one is due, else
    /// wait for a message.
    pub fn action(&self) -> (a: Action)
        ensures
            match a {
                Action::Fetch(key) => self@.due() == Some(key@),
                Action::Wait => self@.due() is None,
            },
    {
        proof {
            use_type_invariant(self);
        }
        match self.state {
            WorkerState::Fetching => match &self.key {
                Some(k) => Action::Fetch(k.clone()),
                None => Action::Wait,
            },
            _ => Action::Wait,
        }
    }

    /// Takes one message. No message is taken while a fetch is due.
    pub fn receive(&mut self, msg: Msg)
        requires
            old(self)@.state != WorkerState::Fetching,
        ensures
            final(self)@ == old(self)@.received(msg@),
    {
        proof {
            use_type_invariant(&*self);
        }
        match msg {
            Msg::ApiKeySet(key) => {
                *self = Worker { state: WorkerState::Fetching, key: Some(key) };
            },
            Msg::Refresh => {
                if self.key.is_some() {
                    self.state = WorkerState::Fetching;
                }
            },
        }
    }

    /// Ends the fetch that was due, with what came of its request: the
    /// cards are put into `news` as `fetch_news` says, all of them or none,
    /// and the worker comes to rest with the key that it had. The result
    /// tells whether the fetch succeeded.
    pub fn complete(&mut self, reply: Reply, news: &mut Vec<NewsCardData>) -> (done: bool)
        requires
            old(self)@.state == WorkerState::Fetching,
        ensures
            done == (fetched(has_address(), reply) is Ok),
            final(self)@ == old(self)@.completed(),
            card_views(final(news)@) == card_views(old(news)@) + delivered(has_address(), reply),
            final(news)@.len() >= old(news)@.len(),
            final(news)@.subrange(0, old(news)@.len() as int) == old(news)@,
    {
        proof {
            use_type_invariant(&*self);
        }
        let done = match &self.key {
            Some(key) => fetch_news(key.as_str(), reply, news),
            None => false,
        };
        self.state = WorkerState::Idle;
        done
    }
}

} // verus!
