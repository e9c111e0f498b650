//! The notification for an accepted post.

use vstd::prelude::*;
use crate::model::{PostView, T3};

verus! {

/// Address of the platform's logo, shown beside the author.
pub const REDDIT_LOGO: &'static str = "https://fia.ort.dev/reddit_logo.png";

/// Accent colour of every card.
pub const EMBED_COLOR: u32 = 0xFF4500;

/// Who a card is attributed to.
#[derive(Clone, Debug)]
pub struct Author {
    pub name: String,
    pub icon_url: String,
}

/// A picture shown in a card.
#[derive(Clone, Debug)]
pub struct Image {
    pub url: String,
}

/// One rich card of a message.
#[derive(Clone, Debug)]
pub struct Embed {
    pub title: Option<String>,
    pub description: Option<String>,
    pub image: Option<Image>,
    pub color: u32,
    pub url: Option<String>,
    pub author: Author,
}

/// The body that is sent to the webhook.
#[derive(Clone, Debug)]
pub struct WebhookMessage {
    pub content: String,
    pub embeds: Vec<Embed>,
}

pub struct AuthorView {
    pub name: Seq<char>,
    pub icon_url: Seq<char>,
}

pub struct ImageView {
    pub url: Seq<char>,
}

pub struct EmbedView {
    pub title: Option<Seq<char>>,
    pub description: Option<Seq<char>>,
    pub image: Option<ImageView>,
    pub color: int,
    pub url: Option<Seq<char>>,
    pub author: AuthorView,
}

pub struct MessageView {
    pub content: Seq<char>,
    pub embeds: Seq<EmbedView>,
}

impl View for Author {
    type V = AuthorView;

    open spec fn view(&self) -> AuthorView {
        AuthorView { name: self.name@, icon_url: self.icon_url@ }
    }
}

impl View for Image {
    type V = ImageView;

    open spec fn view(&self) -> ImageView {
        ImageView { url: self.url@ }
    }
}

impl View for Embed {
    type V = EmbedView;

    open spec fn view(&self) -> EmbedView {
        EmbedView {
            title: crate::model::text_of(self.title),
            description: crate::model::text_of(self.description),
            image: match self.image {
                Some(image) => Some(image@),
                None => None,
            },
            color: self.color as int,
            url: crate::model::text_of(self.url),
            author: self.author@,
        }
    }
}

impl View for WebhookMessage {
    type V = MessageView;

    open spec fn view(&self) -> MessageView {
        MessageView { content: self.content@, embeds: self.embeds@.map_values(|e: Embed| e@) }
    }
}

/// Address of the preview picture of the post with identifier `id`.
pub open spec fn preview_url(id: Seq<char>) -> Seq<char> {
    "https://share.redd.it/preview/post/"@ + id
}

/// Address of the post on the platform, from its relative path.
pub open spec fn source_url(permalink: Seq<char>) -> Seq<char> {
    "https://reddit.com"@ + permalink
}

/// The line that names the author and the community.
pub open spec fn author_line(author: Seq<char>, community: Seq<char>) -> Seq<char> {
    "u/"@ + author + " on "@ + community
}

/// The two links of a card: to the article, and back to the post.
pub open spec fn description_of(domain: Seq<char>, url: Seq<char>, permalink: Seq<char>) -> Seq<
    char,
> {
    "[go to Article on "@ + domain + "](<"@ + url + ">)\n[go to Reddit post](<"@ + source_url(
        permalink,
    ) + ">)"@
}

/// The card for a post whose external address is `url`.
pub open spec fn embed_of(post: PostView, url: Seq<char>) -> EmbedView {
    EmbedView {
        title: Some(post.title),
        description: Some(description_of(post.domain, url, post.permalink)),
        image: Some(ImageView { url: preview_url(post.id) }),
        color: 0xFF4500,
        url: Some(url),
        author: AuthorView {
            name: author_line(post.author, post.subreddit_name_prefixed),
            icon_url: REDDIT_LOGO@,
        },
    }
}

/// The message for a post that has an external address: no text of its own
/// and one card.
pub open spec fn message_of(post: PostView) -> MessageView
    recommends
        post.url is Some,
{
    MessageView { content: Seq::empty(), embeds: seq![embed_of(post, post.url->Some_0)] }
}

/// Builds the message for `post`.  A post without an external address cannot
/// be rendered and has none.
pub fn build_message(post: &T3) -> (message: Option<WebhookMessage>)
    ensures
        message is Some <==> post@.url is Some,
        message is Some ==> message->Some_0@ == message_of(post@),
{
    let url: &String = match &post.url {
        Some(url) => url,
        None => {
            return None;
        },
    };
    let mut preview = String::from_str("https://share.redd.it/preview/post/");
    preview.append(post.id.as_str());

    let mut name = String::from_str("u/");
    name.append(post.author.as_str());
    name.append(" on ");
    name.append(post.subreddit_name_prefixed.as_str());

    let mut source = String::from_str("https://reddit.com");
    source.append(post.permalink.as_str());

    let mut description = String::from_str("[go to Article on ");
    description.append(post.domain.as_str());
    description.append("](<");
    description.append(url.as_str());
    description.append(">)\n[go to Reddit post](<");
    description.append(source.as_str());
    description.append(">)");

    let embed = Embed {
        title: Some(post.title.clone()),
        description: Some(description),
        image: Some(Image { url: preview }),
        color: EMBED_COLOR,
        url: Some(url.clone()),
        author: Author { name, icon_url: String::from_str(REDDIT_LOGO) },
    };
    let mut embeds: Vec<Embed> = Vec::new();
    embeds.push(embed);
    let message = WebhookMessage { content: String::new(), embeds };
    proof {
        assert(embed@ == embed_of(post@, url@));
        assert(message@.embeds =~= seq![embed_of(post@, url@)]);
    }
    Some(message)
}

} // verus!
