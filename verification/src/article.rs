//! Articles and the envelope that the service wraps them in.

use vstd::prelude::*;
use vstd::string::StringExecFns;

verus! {

/// What an article is, as plain values.
pub struct ArticleView {
    pub title: Seq<char>,
    pub url: Seq<char>,
    pub description: Option<Seq<char>>,
}

/// One article of a reply. It does not change once it is made.
#[derive(Debug)]
pub struct Article {
    title: String,
    url: String,
    description: Option<String>,
}

impl View for Article {
    type V = ArticleView;

    closed spec fn view(&self) -> ArticleView {
        ArticleView {
            title: self.title@,
            url: self.url@,
            description: match self.description {
                Some(d) => Some(d@),
                None => None,
            },
        }
    }
}

impl Article {
    /// An article with the given title, address and, where there is one, description.
    pub fn new(title: String, url: String, description: Option<String>) -> (a: Article)
        ensures
            a@.title == title@,
            a@.url == url@,
            a@.description == text_of(description),
    {
        Article { title, url, description }
    }

    pub fn title(&self) -> (t: &str)
        ensures
            t@ == self@.title,
    {
        self.title.as_str()
    }

    pub fn url(&self) -> (u: &str)
        ensures
            u@ == self@.url,
    {
        self.url.as_str()
    }

    pub fn desc(&self) -> (d: Option<&String>)
        ensures
            match d {
                Some(s) => self@.description == Some(s@),
                None => self@.description is None,
            },
    {
        self.description.as_ref()
    }
}

/// The text that an optional string holds.
pub open spec fn text_of(s: Option<String>) -> Option<Seq<char>> {
    match s {
        Some(t) => Some(t@),
        None => None,
    }
}

/// The articles of a vector, each as plain values, in the vector's order.
pub open spec fn article_views(articles: Seq<Article>) -> Seq<ArticleView> {
    articles.map_values(|a: Article| a@)
}

/// What an envelope is, as plain values.
pub struct NewsApiResponseView {
    pub status: Seq<char>,
    pub articles: Seq<ArticleView>,
    pub code: Option<Seq<char>>,
}

/// The envelope of one reply: a status, the articles in the order in which
/// the service gave them, and an error code where the service sent one.
#[derive(Debug)]
pub struct NewsApiResponse {
    status: String,
    pub articles: Vec<Article>,
    code: Option<String>,
}

impl View for NewsApiResponse {
    type V = NewsApiResponseView;

    closed spec fn view(&self) -> NewsApiResponseView {
        NewsApiResponseView {
            status: self.status@,
            articles: article_views(self.articles@),
            code: text_of(self.code),
        }
    }
}

impl NewsApiResponse {
    /// The articles as they are held; their plain values are `self@.articles`.
    pub closed spec fn held(&self) -> Seq<Article> {
        self.articles@
    }

    /// The view's articles are those held, each by its view.
    pub proof fn held_views(&self)
        ensures
            self@.articles == article_views(self.held()),
    {
    }

    /// An envelope with the given status, articles and error code.
    pub fn new(status: String, articles: Vec<Article>, code: Option<String>) -> (r: NewsApiResponse)
        ensures
            r@.status == status@,
            r@.articles == article_views(articles@),
            r@.code == text_of(code),
            r.held() == articles@,
    {
        NewsApiResponse { status, articles, code }
    }

    pub fn articles(&self) -> (a: &Vec<Article>)
        ensures
            a@ == self.held(),
    {
        &self.articles
    }

    /// The status as the service wrote it.
    pub fn status(&self) -> (s: &str)
        ensures
            s@ == self@.status,
    {
        self.status.as_str()
    }

    /// The error code, where the service sent one.
    pub fn code(&self) -> (c: Option<&String>)
        ensures
            match c {
                Some(s) => self@.code == Some(s@),
                None => self@.code is None,
            },
    {
        self.code.as_ref()
    }

    /// Gives up the envelope for its error code.
    pub fn take_code(self) -> (c: Option<String>)
        ensures
            text_of(c) == self@.code,
    {
        self.code
    }

    /// Whether the status is the one that marks a good reply.
    pub fn is_ok(&self) -> (b: bool)
        ensures
            b == (self@.status == "ok"@),
    {
        let ok = String::from_str("ok");
        self.status == ok
    }
}

} // verus!
