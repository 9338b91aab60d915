use h5i_audit_report::json::{lookup, Json, JsonNumber};
use h5i_audit_report::model::{
    Availability, Confinement, Engine, EventKind, EventLane, Grade, Placement, SessionLane, State,
};
use h5i_audit_report::{parse_audit, parse_audit_value};

fn s(text: &str) -> Json {
    Json::Str(text.to_string())
}

fn n(v: u64) -> Json {
    Json::Number(JsonNumber::Unsigned(v))
}

fn obj(members: Vec<(&str, Json)>) -> Json {
    Json::Object(members.into_iter().map(|(k, v)| (k.to_string(), v)).collect())
}

fn arr(items: Vec<Json>) -> Json {
    Json::Array(items)
}

fn members_mut(j: &mut Json) -> &mut Vec<(String, Json)> {
    match j {
        Json::Object(m) => m,
        other => panic!("expected an object, got {other:?}"),
    }
}

fn at<'a>(j: &'a mut Json, key: &str) -> &'a mut Json {
    let m = members_mut(j);
    let i = m.iter().position(|(k, _)| k == key).expect("member");
    &mut m[i].1
}

fn set(j: &mut Json, key: &str, v: Json) {
    let m = members_mut(j);
    match m.iter().position(|(k, _)| k == key) {
        Some(i) => m[i].1 = v,
        None => m.push((key.to_string(), v)),
    }
}

fn remove(j: &mut Json, key: &str) {
    members_mut(j).retain(|(k, _)| k != key);
}

fn fixture(events: Json, dropped: u64) -> Json {
    obj(vec![
        (
            "session",
            obj(vec![
                ("id", s("br_test")),
                ("url", s("https://example.com/")),
                ("placement", obj(vec![("kind", s("host"))])),
                ("engine", s("h5i-light")),
                ("lane", s("engine-claimed")),
                ("started_at", s("2026-01-01T00:00:00.000000Z")),
                ("state", s("closed")),
                ("policy_digest", s("sha256:abc")),
                ("ended_at", s("2026-01-01T00:01:00.000000Z")),
                ("end_reason", s("closed by the user")),
            ]),
        ),
        (
            "sources",
            obj(vec![
                ("actions", s("empty")),
                ("requests", s("empty")),
                ("control", s("empty")),
            ]),
        ),
        ("events", events),
        ("dropped", n(dropped)),
    ])
}

fn envelope(id: u64, lane: &str, grade: &str, kind_fields: Vec<(&str, Json)>) -> Json {
    let mut event = obj(vec![
        ("id", n(id)),
        ("observed_at", s("2026-01-01T00:00:01.000000Z")),
        ("lane", s(lane)),
        ("grade", s(grade)),
    ]);
    for (k, v) in kind_fields {
        set(&mut event, k, v);
    }
    event
}

#[test]
fn valid_minimal_session_audit() {
    let audit = parse_audit_value(fixture(arr(vec![]), 0)).unwrap();
    assert_eq!(audit.session.id, "br_test");
    assert_eq!(audit.session.url, "https://example.com/");
    assert_eq!(audit.session.placement, Placement::Host);
    assert_eq!(audit.session.engine, Engine::H5iLight);
    assert_eq!(audit.session.lane, SessionLane::EngineClaimed);
    assert_eq!(audit.session.state, State::Closed);
    assert_eq!(audit.session.policy_digest, "sha256:abc");
    assert!(audit.events.is_empty());
    assert_eq!(audit.dropped, 0);
    assert_eq!(audit.sources.actions, Availability::Empty);
    assert_eq!(audit.sources.helpers, Availability::Empty);
}

#[test]
fn valid_request_event() {
    let event = envelope(
        1,
        "box-claimed",
        "fail-closed",
        vec![
            ("claimed_at", s("2026-01-01T00:00:00.500000Z")),
            ("kind", s("request")),
            ("seq", n(7)),
            ("method", s("GET")),
            ("url", s("https://example.com/")),
            ("initiator", s("navigation")),
            ("allowed", Json::Bool(true)),
        ],
    );
    let mut audit = fixture(arr(vec![event]), 0);
    set(at(&mut audit, "sources"), "requests", s("read"));
    set(at(&mut audit, "session"), "state", s("live"));
    let audit = parse_audit_value(audit).unwrap();

    assert_eq!(audit.events.len(), 1);
    let event = &audit.events[0];
    assert_eq!(event.id, 1);
    assert_eq!(event.lane, EventLane::BoxClaimed);
    assert_eq!(event.grade, Grade::FailClosed);
    assert_eq!(
        event.claimed_at.as_deref(),
        Some("2026-01-01T00:00:00.500000Z")
    );
    match &event.kind {
        EventKind::Request {
            seq,
            method,
            url,
            initiator,
            allowed,
            denied_reason,
        } => {
            assert_eq!(*seq, 7);
            assert_eq!(method, "GET");
            assert_eq!(url, "https://example.com/");
            assert_eq!(initiator, "navigation");
            assert!(*allowed);
            assert!(denied_reason.is_none());
        }
        other => panic!("expected request, got {other:?}"),
    }
}

#[test]
fn denied_request_with_reason() {
    let event = envelope(
        2,
        "box-claimed",
        "fail-closed",
        vec![
            ("kind", s("request")),
            ("seq", n(1)),
            ("method", s("GET")),
            ("url", s("https://tracker.example/px")),
            ("initiator", s("subresource")),
            ("allowed", Json::Bool(false)),
            ("denied_reason", s("origin is not in the allowlist")),
        ],
    );
    let mut audit = fixture(arr(vec![event]), 0);
    set(at(&mut audit, "sources"), "requests", s("read"));
    let audit = parse_audit_value(audit).unwrap();

    match &audit.events[0].kind {
        EventKind::Request {
            allowed,
            denied_reason,
            ..
        } => {
            assert!(!*allowed);
            assert_eq!(
                denied_reason.as_deref(),
                Some("origin is not in the allowlist")
            );
        }
        other => panic!("expected request, got {other:?}"),
    }
}

#[test]
fn unknown_event_kind_is_preserved() {
    let event = envelope(
        9,
        "host-observed",
        "best-effort",
        vec![
            ("kind", s("navigated")),
            ("url", s("https://example.com/next")),
        ],
    );
    let audit = parse_audit_value(fixture(arr(vec![event]), 0)).unwrap();
    match &audit.events[0].kind {
        EventKind::Unknown { kind, fields } => {
            assert_eq!(kind, "navigated");
            assert_eq!(
                lookup(fields, "url").and_then(Json::as_str),
                Some("https://example.com/next")
            );
        }
        other => panic!("expected unknown, got {other:?}"),
    }
}

#[test]
fn parse_event_order_is_preserved() {
    let events = arr(vec![
        obj(vec![
            ("id", n(3)),
            ("observed_at", s("2026-01-01T00:00:03.000000Z")),
            ("lane", s("box-claimed")),
            ("grade", s("best-effort")),
            ("kind", s("agent-action")),
            ("action", s("click @e1")),
            ("forwarded", Json::Bool(true)),
        ]),
        obj(vec![
            ("id", n(1)),
            ("observed_at", s("2026-01-01T00:00:01.000000Z")),
            ("lane", s("host-observed")),
            ("grade", s("fail-closed")),
            ("kind", s("lifecycle")),
            ("state", s("opened")),
            ("reason", s("https://example.com/")),
        ]),
        obj(vec![
            ("id", n(2)),
            ("observed_at", s("2026-01-01T00:00:02.000000Z")),
            ("lane", s("host-observed")),
            ("grade", s("fail-closed")),
            ("kind", s("control")),
            ("holder", s("human")),
            ("note", s("taken")),
        ]),
    ]);
    let mut audit = fixture(events, 0);
    set(at(&mut audit, "sources"), "actions", s("read"));
    let audit = parse_audit_value(audit).unwrap();
    let ids: Vec<u64> = audit.events.iter().map(|e| e.id).collect();
    assert_eq!(ids, vec![3, 1, 2], "parser must not reorder events");
}

#[test]
fn malformed_root_is_rejected() {
    let err = parse_audit("null").unwrap_err();
    assert!(
        err.message().contains("invalid session audit"),
        "{}",
        err.message()
    );
}

#[test]
fn no_session_array_is_rejected() {
    let err = parse_audit_value(arr(vec![obj(vec![
        ("at", s("2026-01-01T00:00:00Z")),
        ("name", s("yt-dlp")),
        ("argv", arr(vec![s("--version")])),
    ])]))
    .unwrap_err();
    assert!(err.message().contains("--no-session"), "{}", err.message());
    assert!(err.message().contains("sessionless"), "{}", err.message());
}

#[test]
fn missing_session_is_rejected() {
    let mut audit = fixture(arr(vec![]), 0);
    remove(&mut audit, "session");
    let err = parse_audit_value(audit).unwrap_err();
    assert!(err.message().contains("session"), "{}", err.message());
}

#[test]
fn missing_session_id_is_rejected() {
    let mut audit = fixture(arr(vec![]), 0);
    remove(at(&mut audit, "session"), "id");
    let err = parse_audit_value(audit).unwrap_err();
    assert!(err.message().contains("id"), "{}", err.message());
}

#[test]
fn missing_events_is_rejected() {
    let mut audit = fixture(arr(vec![]), 0);
    remove(&mut audit, "events");
    let err = parse_audit_value(audit).unwrap_err();
    assert!(err.message().contains("events"), "{}", err.message());
}

#[test]
fn unavailable_source_is_preserved() {
    let mut audit = fixture(arr(vec![]), 0);
    set(at(&mut audit, "sources"), "actions", s("unavailable"));
    set(at(&mut audit, "sources"), "requests", s("unavailable"));
    let audit = parse_audit_value(audit).unwrap();
    assert_eq!(audit.sources.actions, Availability::Unavailable);
    assert_eq!(audit.sources.requests, Availability::Unavailable);
    assert_ne!(audit.sources.actions, Availability::Empty);
}

#[test]
fn dropped_count_is_parsed() {
    let audit = parse_audit_value(fixture(arr(vec![]), 42)).unwrap();
    assert_eq!(audit.dropped, 42);
}

#[test]
fn unknown_string_enums_are_preserved() {
    let mut audit = fixture(arr(vec![]), 0);
    set(at(&mut audit, "session"), "engine", s("future-engine"));
    set(at(&mut audit, "session"), "lane", s("future-lane"));
    set(at(&mut audit, "session"), "state", s("hibernating"));
    set(at(&mut audit, "sources"), "actions", s("archived"));

    let audit = parse_audit_value(audit).unwrap();
    assert_eq!(
        audit.session.engine,
        Engine::Unknown("future-engine".into())
    );
    assert_eq!(
        audit.session.lane,
        SessionLane::Unknown("future-lane".into())
    );
    assert_eq!(audit.session.state, State::Unknown("hibernating".into()));
    assert_eq!(
        audit.sources.actions,
        Availability::Unknown("archived".into())
    );
}

#[test]
fn unknown_event_lane_and_grade_are_preserved() {
    let event = envelope(
        1,
        "side-channel",
        "optimistic",
        vec![("kind", s("lifecycle")), ("state", s("opened"))],
    );
    let audit = parse_audit_value(fixture(arr(vec![event]), 0)).unwrap();
    assert_eq!(
        audit.events[0].lane,
        EventLane::Unknown("side-channel".into())
    );
    assert_eq!(audit.events[0].grade, Grade::Unknown("optimistic".into()));
    assert!(matches!(audit.events[0].kind, EventKind::Lifecycle { .. }));
}

#[test]
fn unknown_placement_kind_is_preserved() {
    let mut audit = fixture(arr(vec![]), 0);
    set(
        at(&mut audit, "session"),
        "placement",
        obj(vec![("kind", s("vm")), ("image", s("alpine"))]),
    );
    let audit = parse_audit_value(audit).unwrap();
    match audit.session.placement {
        Placement::Unknown { kind, fields } => {
            assert_eq!(kind, "vm");
            assert_eq!(lookup(&fields, "image").and_then(Json::as_str), Some("alpine"));
        }
        other => panic!("expected unknown placement, got {other:?}"),
    }
}

#[test]
fn unknown_confinement_kind_is_preserved() {
    let mut audit = fixture(arr(vec![]), 0);
    set(
        at(&mut audit, "session"),
        "confinement",
        obj(vec![("kind", s("bubblewrap")), ("profile", s("strict"))]),
    );
    let audit = parse_audit_value(audit).unwrap();
    match audit.session.confinement {
        Some(Confinement::Unknown { kind, fields }) => {
            assert_eq!(kind, "bubblewrap");
            assert_eq!(
                lookup(&fields, "profile").and_then(Json::as_str),
                Some("strict")
            );
        }
        other => panic!("expected unknown confinement, got {other:?}"),
    }
}

#[test]
fn known_box_placement_still_parses() {
    let mut audit = fixture(arr(vec![]), 0);
    set(
        at(&mut audit, "session"),
        "placement",
        obj(vec![("kind", s("box")), ("name", s("web"))]),
    );
    let audit = parse_audit_value(audit).unwrap();
    assert_eq!(
        audit.session.placement,
        Placement::Box { name: "web".into() }
    );
}
