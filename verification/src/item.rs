//! The item record: the display fields of one card, held as plain values.
//!
//! The content collaborator that fetches items owns its own richer record
//! type; it hands the library one `Item` per record, carrying exactly what
//! the renderer reads.

use vstd::prelude::*;

verus! {

/// The mathematical model of an [`Item`]: every text field as a sequence
/// of characters, every number as an unbounded integer.
#[verifier::ext_equal]
pub ghost struct ItemModel {
    pub title: Seq<char>,
    pub link_url: Option<Seq<char>>,
    pub score: int,
    pub likes: Option<bool>,
    pub created: int,
    pub reply_count: int,
    pub author: Seq<char>,
    pub subreddit: Seq<char>,
    pub nsfw: bool,
    pub flair: Option<Seq<char>>,
}

/// One display record: a multi-line text card's fields.
///
/// `link_url` is `None` for a self post (the card then shows a synthesized
/// `self.<collection>` label); `likes` is the vote state (`Some(true)`
/// upvoted, `Some(false)` downvoted, `None` neutral); `created` is the
/// creation timestamp as supplied; `flair` is optional extra badge text.
#[derive(Debug)]
pub struct Item {
    pub title: String,
    pub link_url: Option<String>,
    pub score: i64,
    pub likes: Option<bool>,
    pub created: i64,
    pub reply_count: u64,
    pub author: String,
    pub subreddit: String,
    pub nsfw: bool,
    pub flair: Option<String>,
}

impl View for Item {
    type V = ItemModel;

    open spec fn view(&self) -> ItemModel {
        ItemModel {
            title: self.title@,
            link_url: match self.link_url {
                Some(u) => Some(u@),
                None => None,
            },
            score: self.score as int,
            likes: self.likes,
            created: self.created as int,
            reply_count: self.reply_count as int,
            author: self.author@,
            subreddit: self.subreddit@,
            nsfw: self.nsfw,
            flair: match self.flair {
                Some(f) => Some(f@),
                None => None,
            },
        }
    }
}

} // verus!
