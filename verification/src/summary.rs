//! Things that can be summarised in a line of text.

use vstd::prelude::*;

verus! {

/// Something that has a summary.
pub trait Summary {
    /// A line of text that sums the item up. Unless a type says otherwise,
    /// the line only invites to read on.
    fn summarize(&self) -> (s: String)
        default_ensures
            s@ == "Read more..."@,
    {
        String::from_str("Read more...")
    }
}

/// A news article.
#[derive(Debug)]
pub struct NewsArticle {
    pub headline: String,
    pub location: String,
    pub author: String,
    pub content: String,
    pub date: String,
}

/// A short message by a user.
#[derive(Debug)]
pub struct Tweet {
    pub username: String,
    pub content: String,
    pub reply: bool,
    pub retweet: bool,
}

impl NewsArticle {
    /// The summary of an article: headline, author, date and place.
    pub open spec fn summary(&self) -> Seq<char> {
        self.headline@ + ", by "@ + self.author@ + " on "@ + self.date@ + " ("@ + self.location@
            + ")"@
    }
}

impl Tweet {
    /// The summary of a tweet: who wrote it, and what.
    pub open spec fn summary(&self) -> Seq<char> {
        self.username@ + ": "@ + self.content@
    }
}

impl Summary for NewsArticle {
    fn summarize(&self) -> (s: String)
        ensures
            s@ == self.summary(),
    {
        let mut s = self.headline.clone();
        s.append(", by ");
        s.append(self.author.as_str());
        s.append(" on ");
        s.append(self.date.as_str());
        s.append(" (");
        s.append(self.location.as_str());
        s.append(")");
        s
    }
}

impl Summary for Tweet {
    fn summarize(&self) -> (s: String)
        ensures
            s@ == self.summary(),
    {
        let mut s = self.username.clone();
        s.append(": ");
        s.append(self.content.as_str());
        s
    }
}

/// The words that announce a summary.
pub open spec fn announcement() -> Seq<char> {
    "New news! Summary of the news: "@
}

/// The notice that announces an item: the announcement, then a summary that
/// the item gives of itself.
pub fn notification<T: Summary>(item: &T) -> (notice: String)
    ensures
        exists|summary: String|
            call_ensures(T::summarize, (item,), summary) && notice@ == announcement() + summary@,
{
    let summary = item.summarize();
    let mut notice = String::from_str("New news! Summary of the news: ");
    notice.append(summary.as_str());
    notice
}

} // verus!
