//! GitHub webhook events, and their strict decoding from a JSON payload.
use crate::json::{
    bool_member, get_bool, get_member, get_opt_bool, get_opt_str, get_str, get_u64, member,
    opt_bool_member, opt_str_member, str_member, u64_member, JsonValue,
};
use vstd::prelude::*;

verus! {

/// The view of an optional string.
pub open spec fn opt_str_view(o: Option<String>) -> Option<Seq<char>> {
    match o {
        Some(s) => Some(s@),
        None => None,
    }
}

pub struct User {
    pub login: String,
    pub name: Option<String>,
    pub html_url: String,
    pub avatar_url: String,
}

pub struct UserView {
    pub login: Seq<char>,
    pub name: Option<Seq<char>>,
    pub html_url: Seq<char>,
    pub avatar_url: Seq<char>,
}

impl View for User {
    type V = UserView;

    open spec fn view(&self) -> UserView {
        UserView {
            login: self.login@,
            name: opt_str_view(self.name),
            html_url: self.html_url@,
            avatar_url: self.avatar_url@,
        }
    }
}

pub struct Team {
    pub slug: String,
    pub name: String,
}

pub struct TeamView {
    pub slug: Seq<char>,
    pub name: Seq<char>,
}

impl View for Team {
    type V = TeamView;

    open spec fn view(&self) -> TeamView {
        TeamView { slug: self.slug@, name: self.name@ }
    }
}

pub struct Repository {
    pub full_name: String,
    pub html_url: String,
    pub owner: User,
}

pub struct RepositoryView {
    pub full_name: Seq<char>,
    pub html_url: Seq<char>,
    pub owner: UserView,
}

impl View for Repository {
    type V = RepositoryView;

    open spec fn view(&self) -> RepositoryView {
        RepositoryView { full_name: self.full_name@, html_url: self.html_url@, owner: self.owner@ }
    }
}

#[derive(Clone, Copy, Debug, PartialEq, Eq, Structural)]
pub enum PullRequestAction {
    Opened,
    Edited,
    Closed,
    Reopened,
    Assigned,
    Unassigned,
    ReviewRequested,
    ReviewRequestRemoved,
    Labeled,
    Unlabeled,
    Synchronize,
}

#[derive(Clone, Copy, Debug, PartialEq, Eq, Structural)]
pub enum PullRequestState {
    Open,
    Closed,
}

pub struct PullRequest {
    pub number: u64,
    pub html_url: String,
    pub title: String,
    pub state: PullRequestState,
    pub user: User,
    pub body: Option<String>,
    pub draft: bool,
    pub merged: Option<bool>,
    pub additions: u64,
    pub deletions: u64,
}

pub struct PullRequestView {
    pub number: u64,
    pub html_url: Seq<char>,
    pub title: Seq<char>,
    pub state: PullRequestState,
    pub user: UserView,
    pub body: Option<Seq<char>>,
    pub draft: bool,
    pub merged: Option<bool>,
    pub additions: u64,
    pub deletions: u64,
}

impl View for PullRequest {
    type V = PullRequestView;

    open spec fn view(&self) -> PullRequestView {
        PullRequestView {
            number: self.number,
            html_url: self.html_url@,
            title: self.title@,
            state: self.state,
            user: self.user@,
            body: opt_str_view(self.body),
            draft: self.draft,
            merged: self.merged,
            additions: self.additions,
            deletions: self.deletions,
        }
    }
}

pub enum Event {
    Ping { hook_id: u64, zen: String },
    PullRequest {
        action: PullRequestAction,
        sender: User,
        pull_request: PullRequest,
        requested_team: Option<Team>,
        requested_reviewer: Option<User>,
        repository: Repository,
    },
}

pub enum EventView {
    Ping { hook_id: u64, zen: Seq<char> },
    PullRequest {
        action: PullRequestAction,
        sender: UserView,
        pull_request: PullRequestView,
        requested_team: Option<TeamView>,
        requested_reviewer: Option<UserView>,
        repository: RepositoryView,
    },
}

impl View for Event {
    type V = EventView;

    open spec fn view(&self) -> EventView {
        match self {
            Event::Ping { hook_id, zen } => EventView::Ping { hook_id: *hook_id, zen: zen@ },
            Event::PullRequest {
                action,
                sender,
                pull_request,
                requested_team,
                requested_reviewer,
                repository,
            } => EventView::PullRequest {
                action: *action,
                sender: sender@,
                pull_request: pull_request@,
                requested_team: match requested_team {
                    Some(t) => Some(t@),
                    None => None,
                },
                requested_reviewer: match requested_reviewer {
                    Some(u) => Some(u@),
                    None => None,
                },
                repository: repository@,
            },
        }
    }
}

/// Why a payload could not be turned into an event.
#[derive(Clone, Copy, Debug, PartialEq, Eq, Structural)]
pub enum DecodeError {
    /// The event type is not one this bridge knows; not a fault.
    UnsupportedEventType,
    /// The payload lacks a required field of the named event type, or has
    /// one of the wrong type.
    MalformedPayload,
}

impl DecodeError {
    /// The HTTP status that answers a payload that did not decode: an
    /// unsupported event type is acknowledged with 200, a malformed payload
    /// is refused with 400.
    pub fn status(&self) -> (r: u16)
        ensures
            r == (match *self {
                DecodeError::UnsupportedEventType => 200u16,
                DecodeError::MalformedPayload => 400u16,
            }),
    {
        match self {
            DecodeError::UnsupportedEventType => 200,
            DecodeError::MalformedPayload => 400,
        }
    }
}

/// The user that the object `v` describes, if it has every required field.
pub open spec fn user_from_json(v: JsonValue) -> Option<UserView> {
    match (
        str_member(v, "login"@),
        opt_str_member(v, "name"@),
        str_member(v, "html_url"@),
        str_member(v, "avatar_url"@),
    ) {
        (Some(login), Some(name), Some(html_url), Some(avatar_url)) => Some(
            UserView { login, name, html_url, avatar_url },
        ),
        _ => None,
    }
}

/// The user held in member `key`, if it is present and valid.
pub open spec fn user_member(v: JsonValue, key: Seq<char>) -> Option<UserView> {
    match member(v, key) {
        Some(m) => user_from_json(m),
        None => None,
    }
}

/// The team that the object `v` describes, if it has every required field.
pub open spec fn team_from_json(v: JsonValue) -> Option<TeamView> {
    match (str_member(v, "slug"@), str_member(v, "name"@)) {
        (Some(slug), Some(name)) => Some(TeamView { slug, name }),
        _ => None,
    }
}

/// An optional user member: `Some(None)` when absent or null, `None` when
/// present but not a valid user.
pub open spec fn opt_user_member(v: JsonValue, key: Seq<char>) -> Option<Option<UserView>> {
    match member(v, key) {
        None => Some(None),
        Some(JsonValue::Null) => Some(None),
        Some(m) => match user_from_json(m) {
            Some(u) => Some(Some(u)),
            None => None,
        },
    }
}

/// An optional team member, read as `opt_user_member` reads users.
pub open spec fn opt_team_member(v: JsonValue, key: Seq<char>) -> Option<Option<TeamView>> {
    match member(v, key) {
        None => Some(None),
        Some(JsonValue::Null) => Some(None),
        Some(m) => match team_from_json(m) {
            Some(t) => Some(Some(t)),
            None => None,
        },
    }
}

/// The repository that the object `v` describes.
pub open spec fn repository_from_json(v: JsonValue) -> Option<RepositoryView> {
    match (str_member(v, "full_name"@), str_member(v, "html_url"@), user_member(v, "owner"@)) {
        (Some(full_name), Some(html_url), Some(owner)) => Some(
            RepositoryView { full_name, html_url, owner },
        ),
        _ => None,
    }
}

/// The pull request state written `s`.
pub open spec fn state_from_name(s: Seq<char>) -> Option<PullRequestState> {
    if s == "open"@ {
        Some(PullRequestState::Open)
    } else if s == "closed"@ {
        Some(PullRequestState::Closed)
    } else {
        None
    }
}

/// The pull request action written `s`, in snake case.
pub open spec fn action_from_name(s: Seq<char>) -> Option<PullRequestAction> {
    if s == "opened"@ {
        Some(PullRequestAction::Opened)
    } else if s == "edited"@ {
        Some(PullRequestAction::Edited)
    } else if s == "closed"@ {
        Some(PullRequestAction::Closed)
    } else if s == "reopened"@ {
        Some(PullRequestAction::Reopened)
    } else if s == "assigned"@ {
        Some(PullRequestAction::Assigned)
    } else if s == "unassigned"@ {
        Some(PullRequestAction::Unassigned)
    } else if s == "review_requested"@ {
        Some(PullRequestAction::ReviewRequested)
    } else if s == "review_request_removed"@ {
        Some(PullRequestAction::ReviewRequestRemoved)
    } else if s == "labeled"@ {
        Some(PullRequestAction::Labeled)
    } else if s == "unlabeled"@ {
        Some(PullRequestAction::Unlabeled)
    } else if s == "synchronize"@ {
        Some(PullRequestAction::Synchronize)
    } else {
        None
    }
}

/// The enumerated member `key`, read through `f`.
pub open spec fn named_member<T>(v: JsonValue, key: Seq<char>, f: spec_fn(Seq<char>) -> Option<T>) -> Option<T> {
    match str_member(v, key) {
        Some(s) => f(s),
        None => None,
    }
}

/// The pull request that the object `v` describes.
pub open spec fn pull_request_from_json(v: JsonValue) -> Option<PullRequestView> {
    match (
        u64_member(v, "number"@),
        str_member(v, "html_url"@),
        str_member(v, "title"@),
        named_member(v, "state"@, |s| state_from_name(s)),
        user_member(v, "user"@),
        opt_str_member(v, "body"@),
        bool_member(v, "draft"@),
        opt_bool_member(v, "merged"@),
        u64_member(v, "additions"@),
        u64_member(v, "deletions"@),
    ) {
        (
            Some(number),
            Some(html_url),
            Some(title),
            Some(state),
            Some(user),
            Some(body),
            Some(draft),
            Some(merged),
            Some(additions),
            Some(deletions),
        ) => Some(
            PullRequestView {
                number,
                html_url,
                title,
                state,
                user,
                body,
                draft,
                merged,
                additions,
                deletions,
            },
        ),
        _ => None,
    }
}

/// What decoding a payload of the named event type gives.
pub open spec fn event_from_json(event_type: Seq<char>, payload: JsonValue) -> Result<EventView, DecodeError> {
    if event_type == "ping"@ {
        match (u64_member(payload, "hook_id"@), str_member(payload, "zen"@)) {
            (Some(hook_id), Some(zen)) => Ok(EventView::Ping { hook_id, zen }),
            _ => Err(DecodeError::MalformedPayload),
        }
    } else if event_type == "pull_request"@ {
        match (
            named_member(payload, "action"@, |s| action_from_name(s)),
            user_member(payload, "sender"@),
            match member(payload, "pull_request"@) {
                Some(m) => pull_request_from_json(m),
                None => None,
            },
            opt_team_member(payload, "requested_team"@),
            opt_user_member(payload, "requested_reviewer"@),
            match member(payload, "repository"@) {
                Some(m) => repository_from_json(m),
                None => None,
            },
        ) {
            (
                Some(action),
                Some(sender),
                Some(pull_request),
                Some(requested_team),
                Some(requested_reviewer),
                Some(repository),
            ) => Ok(
                EventView::PullRequest {
                    action,
                    sender,
                    pull_request,
                    requested_team,
                    requested_reviewer,
                    repository,
                },
            ),
            _ => Err(DecodeError::MalformedPayload),
        }
    } else {
        Err(DecodeError::UnsupportedEventType)
    }
}

fn same_text(s: &String, lit: &str) -> (r: bool)
    ensures
        r == (s@ == lit@),
{
    *s == String::from_str(lit)
}

impl User {
    /// Reads a user object; `None` when a required field is missing or mistyped.
    pub fn from_json(v: &JsonValue) -> (r: Option<User>)
        ensures
            match r {
                Some(u) => user_from_json(*v) == Some(u@),
                None => user_from_json(*v) is None,
            },
    {
        let login = match get_str(v, "login") {
            Some(s) => s,
            None => return None,
        };
        let name = match get_opt_str(v, "name") {
            Some(n) => n,
            None => return None,
        };
        let html_url = match get_str(v, "html_url") {
            Some(s) => s,
            None => return None,
        };
        let avatar_url = match get_str(v, "avatar_url") {
            Some(s) => s,
            None => return None,
        };
        Some(User { login, name, html_url, avatar_url })
    }

    fn from_member(v: &JsonValue, key: &str) -> (r: Option<User>)
        ensures
            match r {
                Some(u) => user_member(*v, key@) == Some(u@),
                None => user_member(*v, key@) is None,
            },
    {
        match get_member(v, key) {
            Some(m) => User::from_json(m),
            None => None,
        }
    }

    fn from_opt_member(v: &JsonValue, key: &str) -> (r: Option<Option<User>>)
        ensures
            match r {
                Some(Some(u)) => opt_user_member(*v, key@) == Some(Some(u@)),
                Some(None) => opt_user_member(*v, key@) == Some(None::<UserView>),
                None => opt_user_member(*v, key@) is None,
            },
    {
        match get_member(v, key) {
            None => Some(None),
            Some(JsonValue::Null) => Some(None),
            Some(m) => match User::from_json(m) {
                Some(u) => Some(Some(u)),
                None => None,
            },
        }
    }
}

impl Team {
    /// Reads a team object; `None` when a required field is missing or mistyped.
    pub fn from_json(v: &JsonValue) -> (r: Option<Team>)
        ensures
            match r {
                Some(t) => team_from_json(*v) == Some(t@),
                None => team_from_json(*v) is None,
            },
    {
        let slug = match get_str(v, "slug") {
            Some(s) => s,
            None => return None,
        };
        let name = match get_str(v, "name") {
            Some(s) => s,
            None => return None,
        };
        Some(Team { slug, name })
    }

    fn from_opt_member(v: &JsonValue, key: &str) -> (r: Option<Option<Team>>)
        ensures
            match r {
                Some(Some(t)) => opt_team_member(*v, key@) == Some(Some(t@)),
                Some(None) => opt_team_member(*v, key@) == Some(None::<TeamView>),
                None => opt_team_member(*v, key@) is None,
            },
    {
        match get_member(v, key) {
            None => Some(None),
            Some(JsonValue::Null) => Some(None),
            Some(m) => match Team::from_json(m) {
                Some(t) => Some(Some(t)),
                None => None,
            },
        }
    }
}

impl Repository {
    /// Reads a repository object; `None` when a required field is missing or mistyped.
    pub fn from_json(v: &JsonValue) -> (r: Option<Repository>)
        ensures
            match r {
                Some(repo) => repository_from_json(*v) == Some(repo@),
                None => repository_from_json(*v) is None,
            },
    {
        let full_name = match get_str(v, "full_name") {
            Some(s) => s,
            None => return None,
        };
        let html_url = match get_str(v, "html_url") {
            Some(s) => s,
            None => return None,
        };
        let owner = match User::from_member(v, "owner") {
            Some(u) => u,
            None => return None,
        };
        Some(Repository { full_name, html_url, owner })
    }
}

impl PullRequestState {
    /// The state written `s`, as GitHub writes it.
    pub fn from_name(s: &String) -> (r: Option<PullRequestState>)
        ensures
            r == state_from_name(s@),
    {
        if same_text(s, "open") {
            Some(PullRequestState::Open)
        } else if same_text(s, "closed") {
            Some(PullRequestState::Closed)
        } else {
            None
        }
    }
}

impl PullRequestAction {
    /// The action written `s`, as GitHub writes it.
    pub fn from_name(s: &String) -> (r: Option<PullRequestAction>)
        ensures
            r == action_from_name(s@),
    {
        if same_text(s, "opened") {
            Some(PullRequestAction::Opened)
        } else if same_text(s, "edited") {
            Some(PullRequestAction::Edited)
        } else if same_text(s, "closed") {
            Some(PullRequestAction::Closed)
        } else if same_text(s, "reopened") {
            Some(PullRequestAction::Reopened)
        } else if same_text(s, "assigned") {
            Some(PullRequestAction::Assigned)
        } else if same_text(s, "unassigned") {
            Some(PullRequestAction::Unassigned)
        } else if same_text(s, "review_requested") {
            Some(PullRequestAction::ReviewRequested)
        } else if same_text(s, "review_request_removed") {
            Some(PullRequestAction::ReviewRequestRemoved)
        } else if same_text(s, "labeled") {
            Some(PullRequestAction::Labeled)
        } else if same_text(s, "unlabeled") {
            Some(PullRequestAction::Unlabeled)
        } else if same_text(s, "synchronize") {
            Some(PullRequestAction::Synchronize)
        } else {
            None
        }
    }
}

impl PullRequest {
    /// Reads a pull request object; `None` when a required field is missing or mistyped.
    pub fn from_json(v: &JsonValue) -> (r: Option<PullRequest>)
        ensures
            match r {
                Some(pr) => pull_request_from_json(*v) == Some(pr@),
                None => pull_request_from_json(*v) is None,
            },
    {
        let number = match get_u64(v, "number") {
            Some(n) => n,
            None => return None,
        };
        let html_url = match get_str(v, "html_url") {
            Some(s) => s,
            None => return None,
        };
        let title = match get_str(v, "title") {
            Some(s) => s,
            None => return None,
        };
        let state = match get_str(v, "state") {
            Some(s) => match PullRequestState::from_name(&s) {
                Some(st) => st,
                None => return None,
            },
            None => return None,
        };
        let user = match User::from_member(v, "user") {
            Some(u) => u,
            None => return None,
        };
        let body = match get_opt_str(v, "body") {
            Some(b) => b,
            None => return None,
        };
        let draft = match get_bool(v, "draft") {
            Some(b) => b,
            None => return None,
        };
        let merged = match get_opt_bool(v, "merged") {
            Some(m) => m,
            None => return None,
        };
        let additions = match get_u64(v, "additions") {
            Some(n) => n,
            None => return None,
        };
        let deletions = match get_u64(v, "deletions") {
            Some(n) => n,
            None => return None,
        };
        Some(
            PullRequest {
                number,
                html_url,
                title,
                state,
                user,
                body,
                draft,
                merged,
                additions,
                deletions,
            },
        )
    }
}

impl Event {
    /// Decodes the payload of a webhook delivery whose event type is
    /// `event_type`. Unknown event types give `UnsupportedEventType`; a known
    /// type whose payload lacks a required field gives `MalformedPayload`.
    pub fn from_payload(event_type: String, payload: JsonValue) -> (r: Result<Event, DecodeError>)
        ensures
            match r {
                Ok(e) => event_from_json(event_type@, payload) == Ok::<EventView, DecodeError>(e@),
                Err(err) => event_from_json(event_type@, payload) == Err::<EventView, DecodeError>(err),
            },
    {
        if same_text(&event_type, "ping") {
            let hook_id = match get_u64(&payload, "hook_id") {
                Some(n) => n,
                None => return Err(DecodeError::MalformedPayload),
            };
            let zen = match get_str(&payload, "zen") {
                Some(s) => s,
                None => return Err(DecodeError::MalformedPayload),
            };
            Ok(Event::Ping { hook_id, zen })
        } else if same_text(&event_type, "pull_request") {
            let action = match get_str(&payload, "action") {
                Some(s) => match PullRequestAction::from_name(&s) {
                    Some(a) => a,
                    None => return Err(DecodeError::MalformedPayload),
                },
                None => return Err(DecodeError::MalformedPayload),
            };
            let sender = match User::from_member(&payload, "sender") {
                Some(u) => u,
                None => return Err(DecodeError::MalformedPayload),
            };
            let pull_request = match get_member(&payload, "pull_request") {
                Some(m) => match PullRequest::from_json(m) {
                    Some(pr) => pr,
                    None => return Err(DecodeError::MalformedPayload),
                },
                None => return Err(DecodeError::MalformedPayload),
            };
            let requested_team = match Team::from_opt_member(&payload, "requested_team") {
                Some(t) => t,
                None => return Err(DecodeError::MalformedPayload),
            };
            let requested_reviewer = match User::from_opt_member(&payload, "requested_reviewer") {
                Some(u) => u,
                None => return Err(DecodeError::MalformedPayload),
            };
            let repository = match get_member(&payload, "repository") {
                Some(m) => match Repository::from_json(m) {
                    Some(repo) => repo,
                    None => return Err(DecodeError::MalformedPayload),
                },
                None => return Err(DecodeError::MalformedPayload),
            };
            Ok(
                Event::PullRequest {
                    action,
                    sender,
                    pull_request,
                    requested_team,
                    requested_reviewer,
                    repository,
                },
            )
        } else {
            Err(DecodeError::UnsupportedEventType)
        }
    }
}

/// Decoding is total over event type names: a name other than `ping` and
/// `pull_request` is unsupported, never malformed.
pub proof fn lemma_unknown_type_unsupported(event_type: Seq<char>, payload: JsonValue)
    requires
        event_type != "ping"@,
        event_type != "pull_request"@,
    ensures
        event_from_json(event_type, payload) == Err::<EventView, DecodeError>(
            DecodeError::UnsupportedEventType,
        ),
{
}

/// A payload of a known event type that lacks one of the type's required
/// members is malformed.
pub proof fn lemma_missing_member_malformed(event_type: Seq<char>, payload: JsonValue, key: Seq<char>)
    requires
        (event_type == "ping"@ && (key == "hook_id"@ || key == "zen"@)) || (event_type
            == "pull_request"@ && (key == "action"@ || key == "sender"@ || key
            == "pull_request"@ || key == "repository"@)),
        member(payload, key) is None,
    ensures
        event_from_json(event_type, payload) == Err::<EventView, DecodeError>(
            DecodeError::MalformedPayload,
        ),
{
    reveal_strlit("ping");
    reveal_strlit("pull_request");
    assert("ping"@.len() != "pull_request"@.len());
    if event_type == "ping"@ {
        assert(u64_member(payload, "hook_id"@) is None || str_member(payload, "zen"@) is None);
    } else {
        assert(event_type == "pull_request"@);
        assert(str_member(payload, key) is None);
        assert(user_member(payload, key) is None);
    }
}

/// A user object that lacks its login, profile URL or avatar URL is not a
/// user, and so neither is a payload whose sender is such an object.
pub proof fn lemma_user_missing_member(v: JsonValue, key: Seq<char>)
    requires
        key == "login"@ || key == "html_url"@ || key == "avatar_url"@,
        member(v, key) is None,
    ensures
        user_from_json(v) is None,
{
}

/// A well-formed ping payload decodes to a ping that keeps its hook id and
/// its zen text as they were.
pub proof fn lemma_ping_preserved(payload: JsonValue, hook_id: u64, zen: Seq<char>)
    requires
        u64_member(payload, "hook_id"@) == Some(hook_id),
        str_member(payload, "zen"@) == Some(zen),
    ensures
        event_from_json("ping"@, payload) == Ok::<EventView, DecodeError>(
            EventView::Ping { hook_id, zen },
        ),
{
}

/// A user object with a string login, profile URL and avatar URL, and a
/// name that is a string, null or absent, decodes to the user with exactly
/// those values.
pub proof fn lemma_user_preserved(
    v: JsonValue,
    login: Seq<char>,
    name: Option<Seq<char>>,
    html_url: Seq<char>,
    avatar_url: Seq<char>,
)
    requires
        str_member(v, "login"@) == Some(login),
        opt_str_member(v, "name"@) == Some(name),
        str_member(v, "html_url"@) == Some(html_url),
        str_member(v, "avatar_url"@) == Some(avatar_url),
    ensures
        user_from_json(v) == Some(UserView { login, name, html_url, avatar_url }),
{
}

/// A pull request object whose members all have their required types
/// decodes to the pull request with exactly those values: numbers as they
/// are, strings character for character, absent or null options as none.
pub proof fn lemma_pull_request_object_preserved(v: JsonValue, state_name: Seq<char>, pr: PullRequestView)
    requires
        u64_member(v, "number"@) == Some(pr.number),
        str_member(v, "html_url"@) == Some(pr.html_url),
        str_member(v, "title"@) == Some(pr.title),
        str_member(v, "state"@) == Some(state_name),
        state_from_name(state_name) == Some(pr.state),
        user_member(v, "user"@) == Some(pr.user),
        opt_str_member(v, "body"@) == Some(pr.body),
        bool_member(v, "draft"@) == Some(pr.draft),
        opt_bool_member(v, "merged"@) == Some(pr.merged),
        u64_member(v, "additions"@) == Some(pr.additions),
        u64_member(v, "deletions"@) == Some(pr.deletions),
    ensures
        pull_request_from_json(v) == Some(pr),
{
}

/// A well-formed pull request payload decodes to the pull request event
/// that holds exactly the payload's action, sender, pull request, requested
/// team and user, and repository.
pub proof fn lemma_pull_request_event_preserved(
    payload: JsonValue,
    action_name: Seq<char>,
    pr_object: JsonValue,
    repo_object: JsonValue,
    e: EventView,
)
    requires
        e matches EventView::PullRequest {
            action,
            sender,
            pull_request,
            requested_team,
            requested_reviewer,
            repository,
        } && str_member(payload, "action"@) == Some(action_name) && action_from_name(action_name)
            == Some(action) && user_member(payload, "sender"@) == Some(sender) && member(
            payload,
            "pull_request"@,
        ) == Some(pr_object) && pull_request_from_json(pr_object) == Some(pull_request)
            && opt_team_member(payload, "requested_team"@) == Some(requested_team)
            && opt_user_member(payload, "requested_reviewer"@) == Some(requested_reviewer)
            && member(payload, "repository"@) == Some(repo_object) && repository_from_json(
            repo_object,
        ) == Some(repository),
    ensures
        event_from_json("pull_request"@, payload) == Ok::<EventView, DecodeError>(e),
{
    reveal_strlit("ping");
    reveal_strlit("pull_request");
    assert("ping"@.len() != "pull_request"@.len());
}

} // verus!
