//! Reading an envelope out of the body of a reply.
//!
//! The body is JSON. What is JSON and what is not, the crate `serde_json`
//! decides; which members an envelope and an article must have, and of
//! what kind, is decided here.

use vstd::prelude::*;
use vstd::string::StringExecFns;
use crate::article::{article_views, text_of, Article, ArticleView, NewsApiResponse, NewsApiResponseView};
use crate::error::NewsApiError;

verus! {

/// The members of the JSON object that a text holds: each with its name
/// and the JSON text of its value, in the order of the names, a name that
/// occurs twice counted once. `None` where the text is not one JSON object.
pub uninterp spec fn json_members(text: Seq<char>) -> Option<Seq<(Seq<char>, Seq<char>)>>;

/// The items of the JSON array that a text holds, each as JSON text, in
/// their order. `None` where the text is not one JSON array.
pub uninterp spec fn json_items(text: Seq<char>) -> Option<Seq<Seq<char>>>;

/// What a text holds as JSON: `Some(None)` for `null`, `Some(Some(s))` for
/// the string `s`, `None` for anything else.
pub uninterp spec fn json_text(text: Seq<char>) -> Option<Option<Seq<char>>>;

/// Members as plain values.
pub open spec fn member_views(members: Seq<(String, String)>) -> Seq<(Seq<char>, Seq<char>)> {
    members.map_values(|m: (String, String)| (m.0@, m.1@))
}

/// Texts as plain values.
pub open spec fn text_views(texts: Seq<String>) -> Seq<Seq<char>> {
    texts.map_values(|t: String| t@)
}

/// Calls `serde_json::from_str` for a map from names to values left as
/// JSON text (`serde_json::value::RawValue`), and hands the map out as
/// pairs, in the map's order. Nothing is proved of the parser: the
/// contract gives its answer the name `json_members`.
#[verifier::external_body]
fn read_members(text: &str) -> (r: Option<Vec<(String, String)>>)
    ensures
        match r {
            Some(members) => json_members(text@) == Some(member_views(members@)),
            None => json_members(text@) is None,
        },
{
    let members: std::collections::BTreeMap<String, Box<serde_json::value::RawValue>> =
        serde_json::from_str(text).ok()?;
    Some(members.into_iter().map(|(n, v)| (n, String::from(Box::<str>::from(v)))).collect())
}

/// Calls `serde_json::from_str` for a sequence of values left as JSON text
/// (`serde_json::value::RawValue`). The contract gives its answer the name
/// `json_items`.
#[verifier::external_body]
fn read_items(text: &str) -> (r: Option<Vec<String>>)
    ensures
        match r {
            Some(items) => json_items(text@) == Some(text_views(items@)),
            None => json_items(text@) is None,
        },
{
    let items: Vec<Box<serde_json::value::RawValue>> = serde_json::from_str(text).ok()?;
    Some(items.into_iter().map(|v| String::from(Box::<str>::from(v))).collect())
}

/// Calls `serde_json::from_str` for a string that may be `null`. The
/// contract gives its answer the name `json_text`.
#[verifier::external_body]
fn read_text(text: &str) -> (r: Option<Option<String>>)
    ensures
        match r {
            Some(t) => json_text(text@) == Some(text_of(t)),
            None => json_text(text@) is None,
        },
{
    serde_json::from_str::<Option<String>>(text).ok()
}

/// The value of the first member with the given name.
pub open spec fn found(members: Seq<(Seq<char>, Seq<char>)>, name: Seq<char>) -> Option<Seq<char>>
    decreases members.len(),
{
    if members.len() == 0 {
        None
    } else if members[0].0 == name {
        Some(members[0].1)
    } else {
        found(members.skip(1), name)
    }
}

/// The string that the member with the given name holds: `None` where
/// there is no such member, or where it holds anything but a string.
pub open spec fn required_text(members: Seq<(Seq<char>, Seq<char>)>, name: Seq<char>) -> Option<
    Seq<char>,
> {
    match found(members, name) {
        Some(value) => match json_text(value) {
            Some(Some(s)) => Some(s),
            _ => None,
        },
        None => None,
    }
}

/// The string that the member with the given name holds, where there may
/// be none: `Some(None)` where there is no such member or it holds `null`,
/// `None` where it holds anything but a string or `null`.
pub open spec fn optional_text(members: Seq<(Seq<char>, Seq<char>)>, name: Seq<char>) -> Option<
    Option<Seq<char>>,
> {
    match found(members, name) {
        Some(value) => json_text(value),
        None => Some(None),
    }
}

/// The article that a JSON text holds: an object with the strings `title`
/// and `url`, and `description`, a string, `null` or missing. Other
/// members do not count. `None` where the text holds no such object.
pub open spec fn article_in(text: Seq<char>) -> Option<ArticleView> {
    match json_members(text) {
        Some(m) => if required_text(m, "title"@) is Some && required_text(m, "url"@) is Some
            && optional_text(m, "description"@) is Some {
            Some(
                ArticleView {
                    title: required_text(m, "title"@)->Some_0,
                    url: required_text(m, "url"@)->Some_0,
                    description: optional_text(m, "description"@)->Some_0,
                },
            )
        } else {
            None
        },
        None => None,
    }
}

/// The articles that some JSON texts hold, one for each, in the same
/// order: `None` where one of the texts holds no article.
pub open spec fn articles_in(items: Seq<Seq<char>>) -> Option<Seq<ArticleView>> {
    if forall|i: int| 0 <= i < items.len() ==> (#[trigger] article_in(items[i])) is Some {
        Some(Seq::new(items.len(), |i: int| article_in(items[i])->Some_0))
    } else {
        None
    }
}

/// The articles of an envelope's members: what the array `articles` holds.
pub open spec fn articles_of(members: Seq<(Seq<char>, Seq<char>)>) -> Option<Seq<ArticleView>> {
    match found(members, "articles"@) {
        Some(value) => match json_items(value) {
            Some(items) => articles_in(items),
            None => None,
        },
        None => None,
    }
}

/// The envelope that a body holds: an object with the string `status`,
/// the array `articles`, each item of it an article, and `code`, a
/// string, `null` or missing. Other members do not count. `None` where the
/// body holds no such object.
pub open spec fn envelope_in(body: Seq<char>) -> Option<NewsApiResponseView> {
    match json_members(body) {
        Some(m) => if required_text(m, "status"@) is Some && articles_of(m) is Some
            && optional_text(m, "code"@) is Some {
            Some(
                NewsApiResponseView {
                    status: required_text(m, "status"@)->Some_0,
                    articles: articles_of(m)->Some_0,
                    code: optional_text(m, "code"@)->Some_0,
                },
            )
        } else {
            None
        },
        None => None,
    }
}

/// Finds the value of the first member with the given name.
fn lookup<'a>(members: &'a Vec<(String, String)>, name: &str) -> (r: Option<&'a String>)
    ensures
        match r {
            Some(value) => found(member_views(members@), name@) == Some(value@),
            None => found(member_views(members@), name@) is None,
        },
{
    let wanted = String::from_str(name);
    let ghost views = member_views(members@);
    proof {
        assert(views.skip(0) =~= views);
    }
    let mut i: usize = 0;
    while i < members.len()
        invariant
            i <= members@.len(),
            wanted@ == name@,
            views == member_views(members@),
            found(views, name@) == found(views.skip(i as int), name@),
        decreases members@.len() - i,
    {
        let member = &members[i];
        proof {
            assert(views.skip(i as int)[0] == views[i as int]);
            assert(views.skip(i as int).skip(1) =~= views.skip(i + 1));
        }
        if member.0 == wanted {
            return Some(&member.1);
        }
        i += 1;
    }
    None
}

/// Reads the string of a member that must be there.
fn required(members: &Vec<(String, String)>, name: &str) -> (r: Option<String>)
    ensures
        text_of(r) == required_text(member_views(members@), name@),
{
    match lookup(members, name) {
        Some(value) => match read_text(value.as_str()) {
            Some(Some(s)) => Some(s),
            _ => None,
        },
        None => None,
    }
}

/// Reads the string of a member that may be missing.
fn optional(members: &Vec<(String, String)>, name: &str) -> (r: Option<Option<String>>)
    ensures
        match r {
            Some(t) => optional_text(member_views(members@), name@) == Some(text_of(t)),
            None => optional_text(member_views(members@), name@) is None,
        },
{
    match lookup(members, name) {
        Some(value) => read_text(value.as_str()),
        None => Some(None),
    }
}

/// Reads one article.
pub fn decode_article(text: &str) -> (r: Option<Article>)
    ensures
        match r {
            Some(a) => article_in(text@) == Some(a@),
            None => article_in(text@) is None,
        },
{
    let members = match read_members(text) {
        Some(m) => m,
        None => {
            return None;
        },
    };
    let title = match required(&members, "title") {
        Some(t) => t,
        None => {
            return None;
        },
    };
    let url = match required(&members, "url") {
        Some(u) => u,
        None => {
            return None;
        },
    };
    match optional(&members, "description") {
        Some(description) => Some(Article::new(title, url, description)),
        None => None,
    }
}

/// Reads the articles of an envelope's members.
fn decode_articles(members: &Vec<(String, String)>) -> (r: Option<Vec<Article>>)
    ensures
        match r {
            Some(a) => articles_of(member_views(members@)) == Some(article_views(a@)),
            None => articles_of(member_views(members@)) is None,
        },
{
    let value = match lookup(members, "articles") {
        Some(v) => v,
        None => {
            return None;
        },
    };
    let items = match read_items(value.as_str()) {
        Some(i) => i,
        None => {
            return None;
        },
    };
    let ghost texts = text_views(items@);
    let mut articles: Vec<Article> = Vec::new();
    let mut i: usize = 0;
    while i < items.len()
        invariant
            i <= items@.len(),
            texts == text_views(items@),
            articles_of(member_views(members@)) == articles_in(texts),
            articles@.len() == i,
            forall|j: int| 0 <= j < i ==> (#[trigger] article_in(texts[j])) == Some(articles@[j]@),
        decreases items@.len() - i,
    {
        match decode_article(items[i].as_str()) {
            Some(a) => {
                articles.push(a);
            },
            None => {
                proof {
                    assert(article_in(texts[i as int]) is None);
                }
                return None;
            },
        }
        i += 1;
    }
    proof {
        assert(article_views(articles@) =~= articles_in(texts)->Some_0);
    }
    Some(articles)
}

/// Reads the envelope out of a body: `envelope_in`, or the decode error
/// where the body holds none.
pub fn decode(body: &str) -> (r: Result<NewsApiResponse, NewsApiError>)
    ensures
        match envelope_in(body@) {
            Some(envelope) => r is Ok && r->Ok_0@ == envelope,
            None => r == Err::<NewsApiResponse, NewsApiError>(NewsApiError::ArticleParseFailed),
        },
{
    let members = match read_members(body) {
        Some(m) => m,
        None => {
            return Err(NewsApiError::ArticleParseFailed);
        },
    };
    let status = match required(&members, "status") {
        Some(s) => s,
        None => {
            return Err(NewsApiError::ArticleParseFailed);
        },
    };
    let articles = match decode_articles(&members) {
        Some(a) => a,
        None => {
            return Err(NewsApiError::ArticleParseFailed);
        },
    };
    match optional(&members, "code") {
        Some(code) => Ok(NewsApiResponse::new(status, articles, code)),
        None => Err(NewsApiError::ArticleParseFailed),
    }
}

} // verus!
