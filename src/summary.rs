//! Summaries of posts, through a trait with a default method.
use vstd::prelude::*;
use vstd::string::*;

verus! {

/// A post that can describe itself in one line.
pub trait Summary {
    /// Who wrote the post, as readers see it.
    fn summarize_author(&self) -> String;

    /// One line about the post; by default a pointer to its author.
    fn summarize(&self) -> String {
        let mut s = "Read more... by author ".to_owned();
        let author = self.summarize_author();
        s.append(author.as_str());
        s
    }
}

/// `Summary: <who>: <content>`, the line that articles and twits use.
pub open spec fn summary_line(who: Seq<char>, content: Seq<char>) -> Seq<char> {
    "Summary: "@ + who + ": "@ + content
}

fn summary_of(who: &str, content: &str) -> (r: String)
    ensures
        r@ == summary_line(who@, content@),
{
    let mut s = "Summary: ".to_owned();
    s.append(who);
    s.append(": ");
    s.append(content);
    s
}

/// A newspaper article.
pub struct NewsArticle {
    pub author: String,
    pub headline: String,
    pub content: String,
}

impl Summary for NewsArticle {
    fn summarize_author(&self) -> (r: String)
        ensures
            r@ == self.author@,
    {
        self.author.clone()
    }

    fn summarize(&self) -> (r: String)
        ensures
            r@ == summary_line(self.author@, self.content@),
    {
        summary_of(self.author.as_str(), self.content.as_str())
    }
}

/// A short public message.
pub struct Twit {
    pub username: String,
    pub content: String,
    pub replay: bool,
    pub retwit: bool,
}

impl Summary for Twit {
    fn summarize_author(&self) -> (r: String)
        ensures
            r@ == seq!['@'] + self.username@,
    {
        let mut s = "@".to_owned();
        s.append(self.username.as_str());
        proof {
            reveal_strlit("@");
        }
        s
    }

    fn summarize(&self) -> (r: String)
        ensures
            r@ == summary_line(self.username@, self.content@),
    {
        summary_of(self.username.as_str(), self.content.as_str())
    }
}

/// A message on a social network; summarized by the trait's default.
#[derive(Debug)]
pub struct Vk {
    pub login: String,
    pub message: String,
}

impl Summary for Vk {
    fn summarize_author(&self) -> (r: String)
        ensures
            r@ == self.login@,
    {
        self.login.clone()
    }
}

/// A sample post, known to callers only as something with a summary.
pub fn create_summarizable() -> impl Summary {
    Twit {
        username: "aksj2ds".to_owned(),
        content: "la la la la".to_owned(),
        replay: false,
        retwit: false,
    }
}

} // verus!
