//! The mapping from a decoded event to the notification it calls for.
use crate::config::{lookup_id, table_get, AppConfig};
use crate::discord::{pr_embed, Embed, Message, MessageView};
use crate::github::{
    Event, EventView, PullRequestAction, PullRequestView, RepositoryView, Team, TeamView, User,
    UserView,
};
use vstd::prelude::*;

verus! {

/// Why no notification is sent for an event. None of these is a fault.
#[derive(Clone, Copy, Debug, PartialEq, Eq, Structural)]
pub enum SuppressReason {
    /// A ping: the liveness check of a new webhook.
    Liveness,
    /// A pull request action that this bridge does not announce.
    ActionNotHandled,
    /// A review was requested from a team that has no role configured.
    NoMentionConfigured,
    /// A review request that names neither a user nor a team.
    NoReviewerSpecified,
}

/// What to do about an event.
pub enum Outcome {
    Send(Message),
    Suppress(SuppressReason),
}

pub enum OutcomeView {
    Send(MessageView),
    Suppress(SuppressReason),
}

impl View for Outcome {
    type V = OutcomeView;

    open spec fn view(&self) -> OutcomeView {
        match self {
            Outcome::Send(m) => OutcomeView::Send(m@),
            Outcome::Suppress(r) => OutcomeView::Suppress(*r),
        }
    }
}

/// How a user is named in a message: the display name, else the login in
/// backticks, so that it is never empty or raw.
pub open spec fn display_name(u: UserView) -> Seq<char> {
    match u.name {
        Some(n) => n,
        None => "`"@ + u.login + "`"@,
    }
}

/// A user asked to review who has no configured mention, named in plain text.
pub open spec fn reviewer_text(u: UserView) -> Seq<char> {
    match u.name {
        Some(n) => n + " (`"@ + u.login + "`)"@,
        None => "`"@ + u.login + "`"@,
    }
}

/// Whom a review request pings: a requested user is mentioned when the
/// table knows them and named in plain text otherwise; a requested team is
/// mentioned through its role, and without one the request is not announced.
pub open spec fn review_ping(
    reviewer: Option<UserView>,
    team: Option<TeamView>,
    cfg: AppConfig,
) -> Result<Seq<char>, SuppressReason> {
    match reviewer {
        Some(u) => match table_get(cfg.discord.user_ids@, u.login) {
            Some(id) => Ok("<@"@ + id + ">"@),
            None => Ok(reviewer_text(u)),
        },
        None => match team {
            Some(t) => match table_get(cfg.discord.role_ids@, t.slug) {
                Some(id) => Ok("<@&"@ + id + ">"@),
                None => Err(SuppressReason::NoMentionConfigured),
            },
            None => Err(SuppressReason::NoReviewerSpecified),
        },
    }
}

/// The notification that an event calls for under the configuration `cfg`.
pub open spec fn event_outcome(e: EventView, cfg: AppConfig) -> OutcomeView {
    match e {
        EventView::Ping { .. } => OutcomeView::Suppress(SuppressReason::Liveness),
        EventView::PullRequest {
            action,
            sender,
            pull_request,
            requested_team,
            requested_reviewer,
            repository,
        } => {
            let name = display_name(sender);
            let embeds = seq![pr_embed(pull_request, repository)];
            match action {
                PullRequestAction::Opened => OutcomeView::Send(
                    MessageView { content: name + " opened a pull request"@, embeds },
                ),
                PullRequestAction::Closed => {
                    let verb = if pull_request.merged == Some(true) {
                        "merged"@
                    } else {
                        "closed"@
                    };
                    OutcomeView::Send(
                        MessageView { content: name + " "@ + verb + " a pull request"@, embeds },
                    )
                },
                PullRequestAction::Reopened => OutcomeView::Send(
                    MessageView { content: name + " reopened a pull request"@, embeds },
                ),
                PullRequestAction::ReviewRequested => match review_ping(
                    requested_reviewer,
                    requested_team,
                    cfg,
                ) {
                    Ok(ping) => OutcomeView::Send(
                        MessageView { content: name + " requested review from "@ + ping, embeds },
                    ),
                    Err(reason) => OutcomeView::Suppress(reason),
                },
                _ => OutcomeView::Suppress(SuppressReason::ActionNotHandled),
            }
        },
    }
}

/// Names a user as `display_name` does.
pub fn display_name_of(u: User) -> (r: String)
    ensures
        r@ == display_name(u@),
{
    match u.name {
        Some(n) => n,
        None => {
            let mut s = String::from_str("`");
            s.append(u.login.as_str());
            s.append("`");
            s
        },
    }
}

fn wrapped(prefix: &str, middle: &String, suffix: &str) -> (r: String)
    ensures
        r@ == prefix@ + middle@ + suffix@,
{
    let mut s = String::from_str(prefix);
    s.append(middle.as_str());
    s.append(suffix);
    s
}

/// Decides whom a review request pings, as `review_ping` states.
pub fn resolve_reviewer(
    reviewer: Option<User>,
    team: Option<Team>,
    config: &AppConfig,
) -> (r: Result<String, SuppressReason>)
    ensures
        match r {
            Ok(p) => review_ping(
                match reviewer {
                    Some(u) => Some(u@),
                    None => None,
                },
                match team {
                    Some(t) => Some(t@),
                    None => None,
                },
                *config,
            ) == Ok::<Seq<char>, SuppressReason>(p@),
            Err(e) => review_ping(
                match reviewer {
                    Some(u) => Some(u@),
                    None => None,
                },
                match team {
                    Some(t) => Some(t@),
                    None => None,
                },
                *config,
            ) == Err::<Seq<char>, SuppressReason>(e),
        },
{
    match reviewer {
        Some(u) => match lookup_id(&config.discord.user_ids, &u.login) {
            Some(id) => Ok(wrapped("<@", &id, ">")),
            None => match u.name {
                Some(n) => {
                    let mut s = n;
                    s.append(" (`");
                    s.append(u.login.as_str());
                    s.append("`)");
                    Ok(s)
                },
                None => Ok(wrapped("`", &u.login, "`")),
            },
        },
        None => match team {
            Some(t) => match lookup_id(&config.discord.role_ids, &t.slug) {
                Some(id) => Ok(wrapped("<@&", &id, ">")),
                None => Err(SuppressReason::NoMentionConfigured),
            },
            None => Err(SuppressReason::NoReviewerSpecified),
        },
    }
}

fn message_with(content: String, embed: Embed) -> (r: Message)
    ensures
        r@ == (MessageView { content: content@, embeds: seq![embed@] }),
{
    let mut embeds: Vec<Embed> = Vec::new();
    embeds.push(embed);
    let r = Message { content, embeds };
    proof {
        assert(r@.embeds =~= seq![embed@]);
    }
    r
}

/// Maps an event to the notification it calls for. Total: every event gives
/// exactly one outcome, and the same inputs give the same outcome.
pub fn handle_event(event: Event, config: &AppConfig) -> (r: Outcome)
    ensures
        r@ == event_outcome(event@, *config),
{
    match event {
        Event::Ping { .. } => Outcome::Suppress(SuppressReason::Liveness),
        Event::PullRequest {
            action,
            sender,
            pull_request,
            requested_team,
            requested_reviewer,
            repository,
        } => {
            let mut content = display_name_of(sender);
            match action {
                PullRequestAction::Opened => {
                    content.append(" opened a pull request");
                    Outcome::Send(message_with(content, Embed::from_pr(pull_request, repository)))
                },
                PullRequestAction::Closed => {
                    content.append(" ");
                    if pull_request.merged == Some(true) {
                        content.append("merged");
                    } else {
                        content.append("closed");
                    }
                    content.append(" a pull request");
                    Outcome::Send(message_with(content, Embed::from_pr(pull_request, repository)))
                },
                PullRequestAction::Reopened => {
                    content.append(" reopened a pull request");
                    Outcome::Send(message_with(content, Embed::from_pr(pull_request, repository)))
                },
                PullRequestAction::ReviewRequested => {
                    match resolve_reviewer(requested_reviewer, requested_team, config) {
                        Ok(ping) => {
                            content.append(" requested review from ");
                            content.append(ping.as_str());
                            Outcome::Send(
                                message_with(content, Embed::from_pr(pull_request, repository)),
                            )
                        },
                        Err(reason) => Outcome::Suppress(reason),
                    }
                },
                _ => Outcome::Suppress(SuppressReason::ActionNotHandled),
            }
        },
    }
}

/// The mapping is a function: events with equal contents give equal
/// outcomes under the same configuration.
pub proof fn lemma_outcome_deterministic(a: Event, b: Event, cfg: AppConfig)
    requires
        a@ == b@,
    ensures
        event_outcome(a@, cfg) == event_outcome(b@, cfg),
{
}

/// A review request for a team without a configured role is suppressed,
/// while one for a user without a configured mention is still announced,
/// naming the user in plain text.
pub proof fn lemma_recipient_asymmetry(
    sender: UserView,
    pull_request: PullRequestView,
    team: TeamView,
    user: UserView,
    repository: RepositoryView,
    cfg: AppConfig,
)
    ensures
        table_get(cfg.discord.role_ids@, team.slug) is None ==> event_outcome(
            EventView::PullRequest {
                action: PullRequestAction::ReviewRequested,
                sender,
                pull_request,
                requested_team: Some(team),
                requested_reviewer: None,
                repository,
            },
            cfg,
        ) == OutcomeView::Suppress(SuppressReason::NoMentionConfigured),
        table_get(cfg.discord.user_ids@, user.login) is None ==> event_outcome(
            EventView::PullRequest {
                action: PullRequestAction::ReviewRequested,
                sender,
                pull_request,
                requested_team: None,
                requested_reviewer: Some(user),
                repository,
            },
            cfg,
        ) == OutcomeView::Send(
            MessageView {
                content: display_name(sender) + " requested review from "@ + reviewer_text(user),
                embeds: seq![pr_embed(pull_request, repository)],
            },
        ),
{
}

} // verus!
