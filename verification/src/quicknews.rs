//! The display's side: what it keeps, and how it takes in what the worker sends.

use vstd::prelude::*;
use crate::worker::{card_views, NewsCardData, NewsCardView};

verus! {

/// What the display remembers between runs.
#[derive(Debug)]
pub struct QuickNewsConfig {
    pub dark_mode: bool,
    pub api_key: String,
}

impl Default for QuickNewsConfig {
    /// Light mode, and no key.
    fn default() -> (c: QuickNewsConfig)
        ensures
            !c.dark_mode,
            c.api_key@.len() == 0,
    {
        QuickNewsConfig { dark_mode: false, api_key: String::new() }
    }
}

/// The display's state: the cards shown, in the order in which they came,
/// the configuration, and whether a key has been given.
#[derive(Debug)]
pub struct QuickNews {
    pub articles: Vec<NewsCardData>,
    pub configure: QuickNewsConfig,
    pub api_key_init: bool,
}

impl QuickNews {
    /// A display that shows nothing yet and has no key.
    pub fn new() -> (q: QuickNews)
        ensures
            q.articles@.len() == 0,
            !q.api_key_init,
            !q.configure.dark_mode,
            q.configure.api_key@.len() == 0,
    {
        QuickNews {
            api_key_init: false,
            articles: Vec::new(),
            configure: QuickNewsConfig { dark_mode: false, api_key: String::new() },
        }
    }

    /// Takes in what one look at the worker's output gave. A card is put
    /// behind those shown; where nothing was waiting, nothing changes.
    /// Cards shown are never removed or reordered.
    pub fn preload_articles(&mut self, incoming: Option<NewsCardData>)
        ensures
            final(self).articles@ == match incoming {
                Some(card) => old(self).articles@.push(card),
                None => old(self).articles@,
            },
            final(self).configure == old(self).configure,
            final(self).api_key_init == old(self).api_key_init,
    {
        if let Some(card) = incoming {
            self.articles.push(card);
        }
    }

    /// The cards shown, as plain values.
    pub open spec fn shown(&self) -> Seq<NewsCardView> {
        card_views(self.articles@)
    }
}

} // verus!
