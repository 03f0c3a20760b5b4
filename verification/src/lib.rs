//! Headlines from a news service: building the request, judging the reply,
//! and the worker that decides when to fetch and what to hand to the display.

pub mod article;
pub mod error;
pub mod decode;
pub mod request;
pub mod worker;
pub mod quicknews;

pub use article::{Article, ArticleView, NewsApiResponse, NewsApiResponseView};
pub use error::{map_parsing_err, NewsApiError};
pub use decode::{decode, decode_article};
pub use request::{build_url, judge, settle, Country, Endpoint, NewsAPI, Reply, Request, BASE_URL};
pub use worker::{fetch_news, news_card, Action, Msg, NewsCardData, NewsCardView, Worker, WorkerState};
pub use quicknews::{QuickNews, QuickNewsConfig};
