//! Discord webhook messages, and the rendering of a pull request as an embed.
use crate::github::{
    opt_str_view, PullRequest, PullRequestState, PullRequestView, Repository, RepositoryView,
    UserView,
};
use crate::text::{decimal, decimal_string};
use vstd::prelude::*;

verus! {

/// Embed color of a merged pull request (purple).
pub const MERGED_COLOR: u32 = 0x8957e5;

/// Embed color of an open draft pull request (gray).
pub const DRAFT_COLOR: u32 = 0x6e7681;

/// Embed color of an open pull request (green).
pub const OPEN_COLOR: u32 = 0x238636;

/// Embed color of a pull request closed without merging (red).
pub const CLOSED_COLOR: u32 = 0xda3633;

pub struct Author {
    pub name: String,
    pub url: String,
    pub icon_url: String,
}

pub struct AuthorView {
    pub name: Seq<char>,
    pub url: Seq<char>,
    pub icon_url: Seq<char>,
}

impl View for Author {
    type V = AuthorView;

    open spec fn view(&self) -> AuthorView {
        AuthorView { name: self.name@, url: self.url@, icon_url: self.icon_url@ }
    }
}

pub struct Field {
    pub name: String,
    pub value: String,
    pub inline: bool,
}

pub struct FieldView {
    pub name: Seq<char>,
    pub value: Seq<char>,
    pub inline: bool,
}

impl View for Field {
    type V = FieldView;

    open spec fn view(&self) -> FieldView {
        FieldView { name: self.name@, value: self.value@, inline: self.inline }
    }
}

pub struct Footer {
    pub text: String,
    pub icon_url: String,
}

pub struct FooterView {
    pub text: Seq<char>,
    pub icon_url: Seq<char>,
}

impl View for Footer {
    type V = FooterView;

    open spec fn view(&self) -> FooterView {
        FooterView { text: self.text@, icon_url: self.icon_url@ }
    }
}

pub struct Embed {
    pub title: String,
    pub description: Option<String>,
    pub url: String,
    pub color: u32,
    pub author: Author,
    pub fields: Vec<Field>,
    pub footer: Option<Footer>,
}

pub struct EmbedView {
    pub title: Seq<char>,
    pub description: Option<Seq<char>>,
    pub url: Seq<char>,
    pub color: u32,
    pub author: AuthorView,
    pub fields: Seq<FieldView>,
    pub footer: Option<FooterView>,
}

impl View for Embed {
    type V = EmbedView;

    open spec fn view(&self) -> EmbedView {
        EmbedView {
            title: self.title@,
            description: opt_str_view(self.description),
            url: self.url@,
            color: self.color,
            author: self.author@,
            fields: self.fields@.map_values(|f: Field| f@),
            footer: match self.footer {
                Some(f) => Some(f@),
                None => None,
            },
        }
    }
}

pub struct Message {
    pub content: String,
    pub embeds: Vec<Embed>,
}

pub struct MessageView {
    pub content: Seq<char>,
    pub embeds: Seq<EmbedView>,
}

impl View for Message {
    type V = MessageView;

    open spec fn view(&self) -> MessageView {
        MessageView { content: self.content@, embeds: self.embeds@.map_values(|e: Embed| e@) }
    }
}

/// The color of a pull request's embed: merged wins over everything, then
/// an open draft is gray, an open one green and a closed one red.
pub open spec fn embed_color(pr: PullRequestView) -> u32 {
    if pr.merged == Some(true) {
        MERGED_COLOR
    } else if pr.state == PullRequestState::Open && pr.draft {
        DRAFT_COLOR
    } else if pr.state == PullRequestState::Open {
        OPEN_COLOR
    } else {
        CLOSED_COLOR
    }
}

/// The name shown in an embed's author block: `name (login)`, or the login
/// alone when the user has no display name.
pub open spec fn author_label(u: UserView) -> Seq<char> {
    match u.name {
        Some(n) => n + " ("@ + u.login + ")"@,
        None => u.login,
    }
}

/// The description of an embed: the pull request's body as written, or
/// none when the body is absent or empty.
pub open spec fn body_description(body: Option<Seq<char>>) -> Option<Seq<char>> {
    match body {
        Some(b) => if b.len() > 0 {
            Some(b)
        } else {
            None
        },
        None => None,
    }
}

/// The embed that describes the pull request `pr` of the repository `repo`.
pub open spec fn pr_embed(pr: PullRequestView, repo: RepositoryView) -> EmbedView {
    EmbedView {
        title: pr.title + " #"@ + decimal(pr.number as nat),
        description: body_description(pr.body),
        url: pr.html_url,
        color: embed_color(pr),
        author: AuthorView {
            name: author_label(pr.user),
            url: pr.user.html_url,
            icon_url: pr.user.avatar_url,
        },
        fields: seq![
            FieldView {
                name: "Additions"@,
                value: "**`+"@ + decimal(pr.additions as nat) + "`**"@,
                inline: true,
            },
            FieldView {
                name: "Deletions"@,
                value: "**`-"@ + decimal(pr.deletions as nat) + "`**"@,
                inline: true,
            },
        ],
        footer: Some(FooterView { text: repo.full_name, icon_url: repo.owner.avatar_url }),
    }
}

/// `prefix`, then `n` in decimal, then `suffix`.
fn count_label(prefix: &str, n: u64, suffix: &str) -> (r: String)
    ensures
        r@ == prefix@ + decimal(n as nat) + suffix@,
{
    let mut s = String::from_str(prefix);
    let digits = decimal_string(n);
    s.append(digits.as_str());
    s.append(suffix);
    s
}

impl Embed {
    /// Renders a pull request and its repository as a Discord embed.
    pub fn from_pr(pr: PullRequest, repo: Repository) -> (r: Self)
        ensures
            r@ == pr_embed(pr@, repo@),
    {
        let color = if pr.merged == Some(true) {
            MERGED_COLOR
        } else {
            match pr.state {
                PullRequestState::Open => if pr.draft {
                    DRAFT_COLOR
                } else {
                    OPEN_COLOR
                },
                PullRequestState::Closed => CLOSED_COLOR,
            }
        };
        let mut title = pr.title;
        title.append(" #");
        let number = decimal_string(pr.number);
        title.append(number.as_str());
        let author_name = match pr.user.name {
            Some(n) => {
                let mut s = n;
                s.append(" (");
                s.append(pr.user.login.as_str());
                s.append(")");
                s
            },
            None => pr.user.login,
        };
        let mut fields: Vec<Field> = Vec::new();
        fields.push(
            Field {
                name: String::from_str("Additions"),
                value: count_label("**`+", pr.additions, "`**"),
                inline: true,
            },
        );
        fields.push(
            Field {
                name: String::from_str("Deletions"),
                value: count_label("**`-", pr.deletions, "`**"),
                inline: true,
            },
        );
        let description = match pr.body {
            Some(b) => if b.as_str().unicode_len() > 0 {
                Some(b)
            } else {
                None
            },
            None => None,
        };
        let r = Embed {
            title,
            description,
            url: pr.html_url,
            color,
            author: Author { name: author_name, url: pr.user.html_url, icon_url: pr.user.avatar_url },
            fields,
            footer: Some(Footer { text: repo.full_name, icon_url: repo.owner.avatar_url }),
        };
        proof {
            assert(r@.fields =~= pr_embed(pr@, repo@).fields);
            assert(r@.title =~= pr_embed(pr@, repo@).title);
        }
        r
    }
}

} // verus!
