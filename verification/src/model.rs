//! The records of a listing response and the posts drawn from it.

use vstd::prelude::*;

verus! {

/// What a post carries.
#[derive(Clone, Copy, Debug, PartialEq, Eq, Structural)]
pub enum PostKind {
    Link,
    Image,
    Video,
}

/// A link record of the feed: one candidate post.
#[derive(Clone, Debug)]
pub struct T3 {
    /// Community name without its prefix.
    pub subreddit: String,
    /// Body text of a post that is no link.
    pub selftext: String,
    /// Account identifier of the author.
    pub author_fullname: String,
    /// Title of the post.
    pub title: String,
    /// Community name with its prefix.
    pub subreddit_name_prefixed: String,
    /// Number of downvotes.
    pub downs: i32,
    /// Number of upvotes.
    pub ups: i32,
    /// Displayed score.
    pub score: i32,
    /// Address of the thumbnail.
    pub thumbnail: String,
    /// External address the post links to, where it has one.
    pub url: Option<String>,
    /// Identifier of the post, the only key it is known by.
    pub id: String,
    /// Handle of the author.
    pub author: String,
    /// Path of the post on the platform, relative to its host.
    pub permalink: String,
    /// Host of the external address.
    pub domain: String,
    /// Creation time in whole seconds since the epoch.
    pub created_utc: u64,
}

/// A post as a mathematical value: every text is a sequence of characters.
pub struct PostView {
    pub subreddit: Seq<char>,
    pub selftext: Seq<char>,
    pub author_fullname: Seq<char>,
    pub title: Seq<char>,
    pub subreddit_name_prefixed: Seq<char>,
    pub downs: int,
    pub ups: int,
    pub score: int,
    pub thumbnail: Seq<char>,
    pub url: Option<Seq<char>>,
    pub id: Seq<char>,
    pub author: Seq<char>,
    pub permalink: Seq<char>,
    pub domain: Seq<char>,
    pub created: int,
}

/// The text of an optional string.
pub open spec fn text_of(s: Option<String>) -> Option<Seq<char>> {
    match s {
        Some(t) => Some(t@),
        None => None,
    }
}

impl View for T3 {
    type V = PostView;

    open spec fn view(&self) -> PostView {
        PostView {
            subreddit: self.subreddit@,
            selftext: self.selftext@,
            author_fullname: self.author_fullname@,
            title: self.title@,
            subreddit_name_prefixed: self.subreddit_name_prefixed@,
            downs: self.downs as int,
            ups: self.ups as int,
            score: self.score as int,
            thumbnail: self.thumbnail@,
            url: text_of(self.url),
            id: self.id@,
            author: self.author@,
            permalink: self.permalink@,
            domain: self.domain@,
            created: self.created_utc as int,
        }
    }
}

impl T3 {
    /// Creation time in seconds since the epoch.
    pub fn created(&self) -> (secs: u64)
        ensures
            secs == self.created_utc,
            secs as int == self@.created,
    {
        self.created_utc
    }

    /// A second copy of the post, equal to it in every field.
    pub fn duplicate(&self) -> (copy: T3)
        ensures
            copy == *self,
    {
        let url = match &self.url {
            Some(u) => Some(u.clone()),
            None => None,
        };
        T3 {
            subreddit: self.subreddit.clone(),
            selftext: self.selftext.clone(),
            author_fullname: self.author_fullname.clone(),
            title: self.title.clone(),
            subreddit_name_prefixed: self.subreddit_name_prefixed.clone(),
            downs: self.downs,
            ups: self.ups,
            score: self.score,
            thumbnail: self.thumbnail.clone(),
            url,
            id: self.id.clone(),
            author: self.author.clone(),
            permalink: self.permalink.clone(),
            domain: self.domain.clone(),
            created_utc: self.created_utc,
        }
    }
}

/// One record of a listing, by its kind.  Only link records are understood;
/// the other kinds are carried without content.
#[derive(Clone, Debug)]
pub enum ApiListing {
    /// A comment.
    T1,
    /// An account.
    T2,
    /// A link.
    T3(T3),
    /// A message.
    T4,
    /// A community.
    T5,
    /// An award.
    T6,
    /// A record of no known kind, or one whose fields could not be read.
    Unknown,
}

/// The body of a listing response.
#[derive(Clone, Debug)]
pub struct ReturnDataData {
    pub children: Vec<ApiListing>,
}

/// A listing response.
#[derive(Clone, Debug)]
pub struct ReturnData {
    pub kind: String,
    pub data: ReturnDataData,
}

/// The link records among `records`, in the order in which they stand there.
pub open spec fn links_of(records: Seq<ApiListing>) -> Seq<T3>
    decreases records.len(),
{
    if records.len() == 0 {
        Seq::empty()
    } else {
        let before = links_of(records.drop_last());
        match records.last() {
            ApiListing::T3(post) => before.push(post),
            _ => before,
        }
    }
}

impl ReturnData {
    /// The posts of the response in source order.  Records of any other kind
    /// are passed over; none of them is an error.
    pub fn posts(&self) -> (posts: Vec<T3>)
        ensures
            posts@ == links_of(self.data.children@),
    {
        let mut posts: Vec<T3> = Vec::new();
        let n: usize = self.data.children.len();
        let mut i: usize = 0;
        while i < n
            invariant
                n == self.data.children@.len(),
                i <= n,
                posts@ == links_of(self.data.children@.take(i as int)),
            decreases n - i,
        {
            proof {
                assert(self.data.children@.take(i + 1).drop_last()
                    =~= self.data.children@.take(i as int));
            }
            match &self.data.children[i] {
                ApiListing::T3(post) => {
                    posts.push(post.duplicate());
                },
                _ => {},
            }
            i = i + 1;
        }
        proof {
            assert(self.data.children@.take(n as int) =~= self.data.children@);
        }
        posts
    }
}

} // verus!
