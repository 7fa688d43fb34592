use gh_discord_bridge::config::{has_distinct_keys, AppConfig, DiscordConfig, GithubConfig};
use gh_discord_bridge::discord::{Embed, Message, CLOSED_COLOR, DRAFT_COLOR, MERGED_COLOR, OPEN_COLOR};
use gh_discord_bridge::github::{
    DecodeError, Event, PullRequest, PullRequestAction, PullRequestState, Repository, User,
};
use gh_discord_bridge::handler::{display_name_of, handle_event, Outcome, SuppressReason};
use gh_discord_bridge::json::{get_member, JsonValue};
use gh_discord_bridge::signature::{verify_signature, AuthError};
use gh_discord_bridge::text::decimal_string;
use hmac::Mac;

fn s(x: &str) -> String {
    x.to_string()
}

fn obj(members: Vec<(&str, JsonValue)>) -> JsonValue {
    JsonValue::Object(members.into_iter().map(|(k, v)| (s(k), v)).collect())
}

fn jstr(x: &str) -> JsonValue {
    JsonValue::Str(s(x))
}

fn user_json(login: &str, name: Option<&str>) -> JsonValue {
    obj(vec![
        ("login", jstr(login)),
        ("name", name.map(jstr).unwrap_or(JsonValue::Null)),
        ("html_url", jstr(&format!("https://github.com/{login}"))),
        ("avatar_url", jstr(&format!("https://avatars.example/{login}"))),
        ("id", JsonValue::UInt(7)),
    ])
}

fn pr_json(state: &str, draft: bool, merged: Option<bool>) -> JsonValue {
    obj(vec![
        ("number", JsonValue::UInt(42)),
        ("html_url", jstr("https://github.com/acme/app/pull/42")),
        ("title", jstr("Fix bug")),
        ("state", jstr(state)),
        ("user", user_json("alice", None)),
        ("body", JsonValue::Null),
        ("draft", JsonValue::Bool(draft)),
        ("merged", merged.map(JsonValue::Bool).unwrap_or(JsonValue::Null)),
        ("additions", JsonValue::UInt(5)),
        ("deletions", JsonValue::UInt(2)),
    ])
}

fn repo_json() -> JsonValue {
    obj(vec![
        ("full_name", jstr("acme/app")),
        ("html_url", jstr("https://github.com/acme/app")),
        ("owner", user_json("acme", Some("Acme"))),
    ])
}

fn pr_event_json(action: &str, pr: JsonValue, extra: Vec<(&str, JsonValue)>) -> JsonValue {
    let mut members = vec![
        ("action", jstr(action)),
        ("sender", user_json("alice", None)),
        ("pull_request", pr),
        ("repository", repo_json()),
    ];
    members.extend(extra);
    obj(members)
}

fn config() -> AppConfig {
    AppConfig {
        github: GithubConfig { secret: s("It's a Secret to Everybody"), team: None },
        discord: DiscordConfig {
            webhook_url: s("https://discord.example/api/webhooks/1"),
            user_ids: vec![(s("bob"), s("111"))],
            role_ids: vec![(s("frontend"), s("222"))],
        },
    }
}

fn decode(event_type: &str, payload: JsonValue) -> Event {
    match Event::from_payload(s(event_type), payload) {
        Ok(e) => e,
        Err(e) => panic!("decode failed: {:?}", e),
    }
}

fn sent(outcome: Outcome) -> Message {
    match outcome {
        Outcome::Send(m) => m,
        Outcome::Suppress(r) => panic!("suppressed: {:?}", r),
    }
}

fn suppressed(outcome: Outcome) -> SuppressReason {
    match outcome {
        Outcome::Send(m) => panic!("sent: {}", m.content),
        Outcome::Suppress(r) => r,
    }
}

fn hmac_hex(key: &[u8], body: &[u8]) -> String {
    let mut mac = hmac::Hmac::<sha2::Sha256>::new_from_slice(key).unwrap();
    mac.update(body);
    hex::encode(mac.finalize().into_bytes())
}

#[test]
fn ping_is_suppressed() {
    let payload = obj(vec![("hook_id", JsonValue::UInt(123)), ("zen", jstr("test"))]);
    let event = decode("ping", payload);
    match &event {
        Event::Ping { hook_id, zen } => {
            assert_eq!(*hook_id, 123);
            assert_eq!(zen, "test");
        }
        _ => panic!("not a ping"),
    }
    assert_eq!(suppressed(handle_event(event, &config())), SuppressReason::Liveness);
}

#[test]
fn opened_pull_request_message() {
    let event = decode("pull_request", pr_event_json("opened", pr_json("open", false, None), vec![]));
    let m = sent(handle_event(event, &config()));
    assert_eq!(m.content, "`alice` opened a pull request");
    assert_eq!(m.embeds.len(), 1);
    let e = &m.embeds[0];
    assert_eq!(e.title, "Fix bug #42");
    assert_eq!(e.color, 0x238636);
    assert_eq!(e.color, OPEN_COLOR);
    assert_eq!(e.description, None);
    assert_eq!(e.url, "https://github.com/acme/app/pull/42");
    assert_eq!(e.fields.len(), 2);
    assert_eq!(e.fields[0].name, "Additions");
    assert_eq!(e.fields[0].value, "**`+5`**");
    assert!(e.fields[0].inline);
    assert_eq!(e.fields[1].name, "Deletions");
    assert_eq!(e.fields[1].value, "**`-2`**");
    assert!(e.fields[1].inline);
    assert_eq!(e.author.name, "alice");
    assert_eq!(e.author.url, "https://github.com/alice");
    assert_eq!(e.author.icon_url, "https://avatars.example/alice");
    let footer = e.footer.as_ref().unwrap();
    assert_eq!(footer.text, "acme/app");
    assert_eq!(footer.icon_url, "https://avatars.example/acme");
}

#[test]
fn merged_pull_request_is_purple() {
    let event = decode("pull_request", pr_event_json("closed", pr_json("closed", true, Some(true)), vec![]));
    let m = sent(handle_event(event, &config()));
    assert!(m.content.contains("merged"));
    assert_eq!(m.content, "`alice` merged a pull request");
    assert_eq!(m.embeds[0].color, 0x8957e5);
    assert_eq!(m.embeds[0].color, MERGED_COLOR);
}

#[test]
fn closed_unmerged_pull_request_is_red() {
    let event = decode("pull_request", pr_event_json("closed", pr_json("closed", false, Some(false)), vec![]));
    let m = sent(handle_event(event, &config()));
    assert_eq!(m.content, "`alice` closed a pull request");
    assert_eq!(m.embeds[0].color, CLOSED_COLOR);
    assert_eq!(CLOSED_COLOR, 0xda3633);
}

#[test]
fn reopened_draft_is_gray() {
    let event = decode("pull_request", pr_event_json("reopened", pr_json("open", true, None), vec![]));
    let m = sent(handle_event(event, &config()));
    assert_eq!(m.content, "`alice` reopened a pull request");
    assert_eq!(m.embeds[0].color, DRAFT_COLOR);
    assert_eq!(DRAFT_COLOR, 0x6e7681);
}

#[test]
fn team_without_role_is_suppressed() {
    let team = obj(vec![("slug", jstr("backend")), ("name", jstr("Backend"))]);
    let event = decode(
        "pull_request",
        pr_event_json("review_requested", pr_json("open", false, None), vec![("requested_team", team)]),
    );
    assert_eq!(suppressed(handle_event(event, &config())), SuppressReason::NoMentionConfigured);
}

#[test]
fn team_with_role_is_mentioned() {
    let team = obj(vec![("slug", jstr("frontend")), ("name", jstr("Frontend"))]);
    let event = decode(
        "pull_request",
        pr_event_json("review_requested", pr_json("open", false, None), vec![("requested_team", team)]),
    );
    let m = sent(handle_event(event, &config()));
    assert_eq!(m.content, "`alice` requested review from <@&222>");
}

#[test]
fn user_without_mention_is_named_plainly() {
    let event = decode(
        "pull_request",
        pr_event_json(
            "review_requested",
            pr_json("open", false, None),
            vec![("requested_reviewer", user_json("carol", None))],
        ),
    );
    let m = sent(handle_event(event, &config()));
    assert_eq!(m.content, "`alice` requested review from `carol`");
    assert!(!m.content.contains("<@"));
}

#[test]
fn user_without_mention_keeps_display_name() {
    let event = decode(
        "pull_request",
        pr_event_json(
            "review_requested",
            pr_json("open", false, None),
            vec![("requested_reviewer", user_json("carol", Some("Carol")))],
        ),
    );
    let m = sent(handle_event(event, &config()));
    assert_eq!(m.content, "`alice` requested review from Carol (`carol`)");
}

#[test]
fn user_with_mention_is_mentioned() {
    let event = decode(
        "pull_request",
        pr_event_json(
            "review_requested",
            pr_json("open", false, None),
            vec![("requested_reviewer", user_json("bob", Some("Bob")))],
        ),
    );
    let m = sent(handle_event(event, &config()));
    assert_eq!(m.content, "`alice` requested review from <@111>");
}

#[test]
fn review_request_without_reviewer_is_suppressed() {
    let event = decode("pull_request", pr_event_json("review_requested", pr_json("open", false, None), vec![]));
    assert_eq!(suppressed(handle_event(event, &config())), SuppressReason::NoReviewerSpecified);
}

#[test]
fn other_actions_are_suppressed() {
    for action in ["edited", "assigned", "unassigned", "review_request_removed", "labeled", "unlabeled", "synchronize"] {
        let event = decode("pull_request", pr_event_json(action, pr_json("open", false, None), vec![]));
        assert_eq!(suppressed(handle_event(event, &config())), SuppressReason::ActionNotHandled);
    }
}

#[test]
fn mapping_is_deterministic() {
    let a = sent(handle_event(
        decode("pull_request", pr_event_json("opened", pr_json("open", false, None), vec![])),
        &config(),
    ));
    let b = sent(handle_event(
        decode("pull_request", pr_event_json("opened", pr_json("open", false, None), vec![])),
        &config(),
    ));
    assert_eq!(a.content, b.content);
    assert_eq!(a.embeds[0].title, b.embeds[0].title);
    assert_eq!(a.embeds[0].color, b.embeds[0].color);
    assert_eq!(a.embeds[0].fields[0].value, b.embeds[0].fields[0].value);
}

#[test]
fn unknown_event_type_is_unsupported() {
    for name in ["issues", "push", "", "Ping", "pull_request_review"] {
        let r = Event::from_payload(s(name), obj(vec![]));
        assert!(matches!(r, Err(DecodeError::UnsupportedEventType)));
    }
}

#[test]
fn missing_required_field_is_malformed() {
    let r = Event::from_payload(s("ping"), obj(vec![("hook_id", JsonValue::UInt(1))]));
    assert!(matches!(r, Err(DecodeError::MalformedPayload)));
    let r = Event::from_payload(s("pull_request"), obj(vec![("action", jstr("opened"))]));
    assert!(matches!(r, Err(DecodeError::MalformedPayload)));
    let pr = obj(vec![("number", JsonValue::UInt(1))]);
    let r = Event::from_payload(s("pull_request"), pr_event_json("opened", pr, vec![]));
    assert!(matches!(r, Err(DecodeError::MalformedPayload)));
}

#[test]
fn mistyped_field_is_malformed() {
    let r = Event::from_payload(s("ping"), obj(vec![("hook_id", jstr("1")), ("zen", jstr("z"))]));
    assert!(matches!(r, Err(DecodeError::MalformedPayload)));
    let r = Event::from_payload(s("ping"), obj(vec![("hook_id", JsonValue::OtherNumber), ("zen", jstr("z"))]));
    assert!(matches!(r, Err(DecodeError::MalformedPayload)));
    let r = Event::from_payload(s("pull_request"), pr_event_json("merged", pr_json("open", false, None), vec![]));
    assert!(matches!(r, Err(DecodeError::MalformedPayload)));
    let r = Event::from_payload(s("pull_request"), pr_event_json("opened", pr_json("draft", false, None), vec![]));
    assert!(matches!(r, Err(DecodeError::MalformedPayload)));
    let r = Event::from_payload(s("ping"), JsonValue::Array(vec![]));
    assert!(matches!(r, Err(DecodeError::MalformedPayload)));
}

#[test]
fn valid_payload_keeps_every_field() {
    let mut pr = pr_json("open", false, Some(false));
    if let JsonValue::Object(m) = &mut pr {
        m[5].1 = jstr("Body text ü");
    }
    let event = decode(
        "pull_request",
        pr_event_json(
            "review_requested",
            pr,
            vec![("requested_reviewer", user_json("bob", Some("Bob"))), ("requested_team", JsonValue::Null)],
        ),
    );
    match event {
        Event::PullRequest { action, sender, pull_request, requested_team, requested_reviewer, repository } => {
            assert_eq!(action, PullRequestAction::ReviewRequested);
            assert_eq!(sender.login, "alice");
            assert_eq!(sender.name, None);
            assert_eq!(pull_request.number, 42);
            assert_eq!(pull_request.title, "Fix bug");
            assert_eq!(pull_request.state, PullRequestState::Open);
            assert_eq!(pull_request.body.as_deref(), Some("Body text ü"));
            assert!(!pull_request.draft);
            assert_eq!(pull_request.merged, Some(false));
            assert_eq!(pull_request.additions, 5);
            assert_eq!(pull_request.deletions, 2);
            assert!(requested_team.is_none());
            let r = requested_reviewer.unwrap();
            assert_eq!(r.login, "bob");
            assert_eq!(r.name.as_deref(), Some("Bob"));
            assert_eq!(repository.full_name, "acme/app");
            assert_eq!(repository.owner.login, "acme");
        }
        _ => panic!("not a pull request"),
    }
}

#[test]
fn embed_author_with_display_name() {
    let pr = PullRequest {
        number: 0,
        html_url: s("u"),
        title: s("T"),
        state: PullRequestState::Closed,
        user: User { login: s("dave"), name: Some(s("Dave")), html_url: s("h"), avatar_url: s("a") },
        body: Some(s("")),
        draft: true,
        merged: None,
        additions: 0,
        deletions: u64::MAX,
    };
    let repo = Repository {
        full_name: s("o/r"),
        html_url: s("r"),
        owner: User { login: s("o"), name: None, html_url: s("oh"), avatar_url: s("oa") },
    };
    let e = Embed::from_pr(pr, repo);
    assert_eq!(e.author.name, "Dave (dave)");
    assert_eq!(e.title, "T #0");
    assert_eq!(e.color, CLOSED_COLOR);
    assert_eq!(e.description, None);
    assert_eq!(e.fields[0].value, "**`+0`**");
    assert_eq!(e.fields[1].value, "**`-18446744073709551615`**");
}

#[test]
fn display_name_prefers_name() {
    let u = User { login: s("eve"), name: Some(s("Eve")), html_url: s(""), avatar_url: s("") };
    assert_eq!(display_name_of(u), "Eve");
    let u = User { login: s("eve"), name: None, html_url: s(""), avatar_url: s("") };
    assert_eq!(display_name_of(u), "`eve`");
}

#[test]
fn decimal_rendering() {
    assert_eq!(decimal_string(0), "0");
    assert_eq!(decimal_string(9), "9");
    assert_eq!(decimal_string(10), "10");
    assert_eq!(decimal_string(1234567890), "1234567890");
    assert_eq!(decimal_string(u64::MAX), "18446744073709551615");
}

#[test]
fn member_lookup_takes_first() {
    let v = obj(vec![("a", JsonValue::UInt(1)), ("a", JsonValue::UInt(2))]);
    assert!(matches!(get_member(&v, "a"), Some(JsonValue::UInt(1))));
    assert!(get_member(&v, "b").is_none());
    assert!(get_member(&JsonValue::Null, "a").is_none());
}

#[test]
fn correct_signature_is_accepted() {
    let body = br#"{"zen":"test","hook_id":123}"#;
    let key = b"It's a Secret to Everybody";
    let header = format!("sha256={}", hmac_hex(key, body));
    assert_eq!(verify_signature(body, key, &header), Ok(()));
    assert_eq!(verify_signature(body, key, &header.to_uppercase().replacen("SHA256=", "sha256=", 1)), Ok(()));
    assert_eq!(verify_signature(b"", b"", &format!("sha256={}", hmac_hex(b"", b""))), Ok(()));
}

#[test]
fn tampered_body_is_invalid() {
    let body = br#"{"zen":"test","hook_id":123}"#.to_vec();
    let key = b"It's a Secret to Everybody";
    let header = format!("sha256={}", hmac_hex(key, &body));
    let mut tampered = body.clone();
    tampered[3] ^= 1;
    assert_eq!(verify_signature(&tampered, key, &header), Err(AuthError::InvalidSignature));
    let mut other_key = key.to_vec();
    other_key[0] ^= 1;
    assert_eq!(verify_signature(&body, &other_key, &header), Err(AuthError::InvalidSignature));
}

#[test]
fn flipped_digest_is_invalid() {
    let body = b"payload";
    let key = b"k";
    let digest = hmac_hex(key, body);
    let mut bytes = hex::decode(&digest).unwrap();
    bytes[31] ^= 0x80;
    let header = format!("sha256={}", hex::encode(&bytes));
    assert_eq!(verify_signature(body, key, &header), Err(AuthError::InvalidSignature));
    let short = format!("sha256={}", &digest[..62]);
    assert_eq!(verify_signature(body, key, &short), Err(AuthError::InvalidSignature));
}

#[test]
fn malformed_signature_header() {
    let body = b"payload";
    let key = b"k";
    let digest = hmac_hex(key, body);
    assert_eq!(verify_signature(body, key, &digest), Err(AuthError::MalformedSignature));
    assert_eq!(verify_signature(body, key, &format!("sha1={digest}")), Err(AuthError::MalformedSignature));
    assert_eq!(verify_signature(body, key, &format!("sha256={}", &digest[..63])), Err(AuthError::MalformedSignature));
    assert_eq!(verify_signature(body, key, &format!("sha256={}zz", &digest[..62])), Err(AuthError::MalformedSignature));
    assert_eq!(verify_signature(body, key, "sha256"), Err(AuthError::MalformedSignature));
    assert_eq!(verify_signature(body, key, ""), Err(AuthError::MalformedSignature));
}

#[test]
fn failure_statuses() {
    assert_eq!(AuthError::MalformedSignature.status(), 400);
    assert_eq!(AuthError::InvalidSignature.status(), 401);
    assert_eq!(DecodeError::UnsupportedEventType.status(), 200);
    assert_eq!(DecodeError::MalformedPayload.status(), 400);
}

#[test]
fn recipient_tables_must_be_maps() {
    let ok = DiscordConfig::new(s("u"), vec![(s("a"), s("1")), (s("b"), s("2"))], vec![]);
    assert!(ok.is_some());
    let dup = DiscordConfig::new(s("u"), vec![(s("a"), s("1")), (s("b"), s("2")), (s("a"), s("3"))], vec![]);
    assert!(dup.is_none());
    let dup_role = DiscordConfig::new(s("u"), vec![], vec![(s("x"), s("1")), (s("x"), s("1"))]);
    assert!(dup_role.is_none());
    assert!(has_distinct_keys(&vec![]));
    assert!(!has_distinct_keys(&vec![(s("k"), s("1")), (s("k"), s("2"))]));
}

#[test]
fn body_becomes_description_verbatim() {
    let mut pr = pr_json("open", false, None);
    if let JsonValue::Object(m) = &mut pr {
        m[5].1 = jstr("Fixes the *crash*\n");
    }
    let event = decode("pull_request", pr_event_json("opened", pr, vec![]));
    let m = sent(handle_event(event, &config()));
    assert_eq!(m.embeds[0].description.as_deref(), Some("Fixes the *crash*\n"));
}
