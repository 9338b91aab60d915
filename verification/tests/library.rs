use h5i_audit_report::json::{lookup, Json, JsonNumber};
use h5i_audit_report::model::{
    Audit, Availability, Confinement, Engine, Event, EventKind, EventLane, Grade, Placement,
    Session, SessionLane, Sources, State,
};
use h5i_audit_report::text::{decimal_text, esc, signed_decimal_text};
use h5i_audit_report::render::{availability_class, availability_label};
use h5i_audit_report::{parse_audit, parse_audit_value, render_report};

const AUDIT_TEXT: &str = r#"{
    "session": {
        "id": "br_cli",
        "name": "checkout",
        "url": "https://example.com/",
        "placement": {"kind": "box", "name": "web"},
        "engine": "chromium",
        "lane": "host-observed",
        "started_at": "2026-01-01T00:00:00.000000Z",
        "state": "evicted",
        "policy_digest": "sha256:cli",
        "identity": "alice",
        "confinement": {"kind": "none", "why": "no sandbox"}
    },
    "sources": {
        "actions": "read",
        "requests": "partial",
        "control": "unavailable",
        "helpers": "read"
    },
    "events": [
        {"id": 5, "observed_at": "t5", "lane": "host-observed", "grade": "best-effort",
         "caused_by": 4, "kind": "response", "seq": 9, "status": 200, "bytes": 10, "duration_ms": 3},
        {"id": 6, "observed_at": "t6", "lane": "box-claimed", "grade": "fail-closed",
         "kind": "helper", "name": "yt-dlp", "argv": ["--version", "-q"], "status": -1},
        {"id": 7, "observed_at": "t7", "lane": "box-claimed", "grade": "fail-closed",
         "kind": "telemetry", "count": 3, "ratio": 0.5, "tags": ["a", "b"], "meta": {"b": true, "a": null}}
    ],
    "dropped": 2
}"#;

fn s(text: &str) -> Json {
    Json::Str(text.to_string())
}

fn n(v: u64) -> Json {
    Json::Number(JsonNumber::Unsigned(v))
}

fn obj(members: Vec<(&str, Json)>) -> Json {
    Json::Object(members.into_iter().map(|(k, v)| (k.to_string(), v)).collect())
}

fn minimal(events: Vec<Json>) -> Json {
    obj(vec![
        (
            "session",
            obj(vec![
                ("id", s("br")),
                ("url", s("u")),
                ("placement", obj(vec![("kind", s("host"))])),
                ("engine", s("h5i-light")),
                ("lane", s("engine-claimed")),
                ("started_at", s("t0")),
                ("state", s("live")),
                ("policy_digest", s("d")),
            ]),
        ),
        (
            "sources",
            obj(vec![
                ("actions", s("empty")),
                ("requests", s("empty")),
                ("control", s("empty")),
            ]),
        ),
        ("events", Json::Array(events)),
        ("dropped", n(0)),
    ])
}

fn event(id: u64, members: Vec<(&str, Json)>) -> Json {
    let mut all = vec![
        ("id", n(id)),
        ("observed_at", s("t")),
        ("lane", s("box-claimed")),
        ("grade", s("fail-closed")),
    ];
    all.extend(members);
    obj(all)
}

fn plain_audit(events: Vec<Event>) -> Audit {
    Audit {
        session: Session {
            id: "br".into(),
            name: None,
            url: "u".into(),
            placement: Placement::Host,
            engine: Engine::H5iLight,
            lane: SessionLane::EngineClaimed,
            started_at: "t0".into(),
            ended_at: None,
            end_reason: None,
            state: State::Live,
            policy_digest: "d".into(),
            identity: String::new(),
            identity_digest: String::new(),
            confinement: None,
            restored_from: None,
        },
        sources: Sources {
            actions: Availability::Empty,
            requests: Availability::Empty,
            control: Availability::Empty,
            helpers: Availability::Empty,
            messages: Availability::Empty,
        },
        events,
        dropped: 0,
    }
}

fn plain_event(id: u64, kind: EventKind) -> Event {
    Event {
        id,
        observed_at: "t".into(),
        lane: EventLane::HostObserved,
        grade: Grade::BestEffort,
        caused_by: None,
        claimed_at: None,
        kind,
    }
}

#[test]
fn text_audit_reads_every_member() {
    let audit = parse_audit(AUDIT_TEXT).unwrap();
    assert_eq!(audit.session.name.as_deref(), Some("checkout"));
    assert_eq!(audit.session.placement, Placement::Box { name: "web".into() });
    assert_eq!(audit.session.engine, Engine::Chromium);
    assert_eq!(audit.session.lane, SessionLane::HostObserved);
    assert_eq!(audit.session.state, State::Evicted);
    assert_eq!(audit.session.identity, "alice");
    assert_eq!(audit.session.identity_digest, "");
    assert_eq!(audit.session.ended_at, None);
    assert_eq!(
        audit.session.confinement,
        Some(Confinement::Unconfined { why: "no sandbox".into() })
    );
    assert_eq!(audit.sources.requests, Availability::Partial);
    assert_eq!(audit.sources.control, Availability::Unavailable);
    assert_eq!(audit.sources.helpers, Availability::Read);
    assert_eq!(audit.sources.messages, Availability::Empty);
    assert_eq!(audit.dropped, 2);
    let ids: Vec<u64> = audit.events.iter().map(|e| e.id).collect();
    assert_eq!(ids, vec![5, 6, 7]);
    assert_eq!(audit.events[0].caused_by, Some(4));
    assert_eq!(
        audit.events[0].kind,
        EventKind::Response {
            seq: 9,
            status: Some(200),
            bytes: Some(10),
            duration_ms: Some(3),
            error: None,
        }
    );
    assert_eq!(
        audit.events[1].kind,
        EventKind::Helper {
            name: "yt-dlp".into(),
            argv: vec!["--version".into(), "-q".into()],
            status: Some(-1),
            note: None,
        }
    );
}

#[test]
fn unknown_kind_keeps_members_outside_envelope() {
    let audit = parse_audit(AUDIT_TEXT).unwrap();
    match &audit.events[2].kind {
        EventKind::Unknown { kind, fields } => {
            assert_eq!(kind, "telemetry");
            let names: Vec<&str> = fields.iter().map(|(k, _)| k.as_str()).collect();
            assert_eq!(names, vec!["count", "meta", "ratio", "tags"]);
            assert_eq!(lookup(fields, "count"), Some(&n(3)));
            assert!(lookup(fields, "id").is_none());
            assert!(lookup(fields, "kind").is_none());
        }
        other => panic!("expected unknown, got {other:?}"),
    }
}

#[test]
fn report_of_text_audit_shows_values_and_json_previews() {
    let html = render_report(&parse_audit(AUDIT_TEXT).unwrap());
    assert!(html.contains("<dt>Placement</dt><dd>box (web)</dd>"));
    assert!(html.contains("<dt>Identity</dt><dd>alice</dd>"));
    assert!(html.contains("<dt>Ended</dt><dd>—</dd>"));
    assert!(html.contains("2 older event(s) were dropped by the audit cap."));
    assert!(html.contains("#9 status 200 · 10 bytes · 3 ms"));
    assert!(html.contains("caused by #4"));
    assert!(html.contains("helper yt-dlp --version -q (exit -1)"));
    assert!(html.contains("<li><code>count</code>: 3</li>"));
    assert!(html.contains("<li><code>ratio</code>: 0.5</li>"));
    assert!(html.contains("<li><code>tags</code>: [&quot;a&quot;,&quot;b&quot;]</li>"));
    assert!(html.contains("<li><code>meta</code>: {&quot;a&quot;:null,&quot;b&quot;:true}</li>"));
    assert!(html.contains("unsupported kind telemetry"));
}

#[test]
fn invalid_text_is_refused_as_json() {
    let err = parse_audit("{\"session\": ").unwrap_err();
    assert!(err.message().starts_with("invalid JSON: "), "{}", err.message());
}

#[test]
fn root_array_text_is_refused_as_sessionless() {
    let err = parse_audit("[]").unwrap_err();
    assert!(err.message().starts_with("unsupported input: root JSON array"), "{}", err.message());
}

#[test]
fn missing_member_message_is_exact() {
    let mut doc = minimal(vec![]);
    if let Json::Object(m) = &mut doc {
        m.retain(|(k, _)| k != "dropped");
    }
    let err = parse_audit_value(doc).unwrap_err();
    assert_eq!(err.message(), "invalid session audit: missing field `dropped`");
}

#[test]
fn wrong_type_message_is_exact() {
    let mut doc = minimal(vec![]);
    if let Json::Object(m) = &mut doc {
        m[3].1 = Json::Number(JsonNumber::Negative(-1));
    }
    let err = parse_audit_value(doc).unwrap_err();
    assert_eq!(
        err.message(),
        "invalid session audit: invalid type for field `dropped`: expected an unsigned 64-bit integer"
    );
}

#[test]
fn root_scalar_is_refused() {
    let err = parse_audit_value(Json::Bool(true)).unwrap_err();
    assert_eq!(
        err.message(),
        "invalid session audit: invalid type: expected a session audit object"
    );
}

#[test]
fn event_that_is_not_an_object_is_refused() {
    let err = parse_audit_value(minimal(vec![s("oops")])).unwrap_err();
    assert_eq!(
        err.message(),
        "invalid session audit: invalid type in field `events`: expected an array of objects"
    );
}

#[test]
fn first_bad_event_decides_the_error() {
    let good = event(1, vec![("kind", s("control")), ("holder", s("human"))]);
    let bad1 = event(2, vec![("kind", s("control"))]);
    let bad2 = event(3, vec![("kind", s("lifecycle"))]);
    let err = parse_audit_value(minimal(vec![good, bad1, bad2])).unwrap_err();
    assert_eq!(err.message(), "invalid session audit: missing field `holder`");
}

#[test]
fn status_outside_u16_is_refused() {
    let ev = event(1, vec![("kind", s("response")), ("seq", n(1)), ("status", n(70000))]);
    let err = parse_audit_value(minimal(vec![ev])).unwrap_err();
    assert_eq!(
        err.message(),
        "invalid session audit: invalid type for field `status`: expected an unsigned 16-bit integer or null"
    );
}

#[test]
fn float_where_integer_expected_is_refused() {
    let text = AUDIT_TEXT.replace("\"dropped\": 2", "\"dropped\": 1.5");
    let err = parse_audit(&text).unwrap_err();
    assert_eq!(
        err.message(),
        "invalid session audit: invalid type for field `dropped`: expected an unsigned 64-bit integer"
    );
}

#[test]
fn float_previews_print_the_number_read() {
    let text = AUDIT_TEXT.replace("\"ratio\": 0.5", "\"ratio\": [0.1, 1e20, -2.5e-7, 0.30000000000000004]");
    let html = render_report(&parse_audit(&text).unwrap());
    assert!(
        html.contains("<li><code>ratio</code>: [0.1,1e+20,-2.5e-7,0.30000000000000004]</li>"),
        "{html}"
    );
}

#[test]
fn null_optional_members_read_as_absent() {
    let ev = event(
        1,
        vec![
            ("kind", s("lifecycle")),
            ("state", s("opened")),
            ("reason", Json::Null),
            ("caused_by", Json::Null),
        ],
    );
    let audit = parse_audit_value(minimal(vec![ev])).unwrap();
    assert_eq!(audit.events[0].caused_by, None);
    assert_eq!(
        audit.events[0].kind,
        EventKind::Lifecycle { state: "opened".into(), reason: None }
    );
}

#[test]
fn argv_with_a_non_string_is_refused() {
    let ev = event(
        1,
        vec![("kind", s("helper")), ("name", s("x")), ("argv", Json::Array(vec![s("a"), n(1)]))],
    );
    let err = parse_audit_value(minimal(vec![ev])).unwrap_err();
    assert_eq!(
        err.message(),
        "invalid session audit: invalid type for field `argv`: expected an array of strings"
    );
}

#[test]
fn first_of_repeated_members_is_read() {
    let mut doc = minimal(vec![]);
    if let Json::Object(m) = &mut doc {
        m.push(("dropped".to_string(), n(9)));
    }
    let audit = parse_audit_value(doc).unwrap();
    assert_eq!(audit.dropped, 0);
}

#[test]
fn escaping_covers_every_markup_character() {
    assert_eq!(esc("a<b>&\"c'"), "a&lt;b&gt;&amp;&quot;c&#39;");
    assert_eq!(esc("plain text — é"), "plain text — é");
    assert_eq!(esc(""), "");
}

#[test]
fn numerals_are_decimal() {
    assert_eq!(decimal_text(0), "0");
    assert_eq!(decimal_text(1200), "1200");
    assert_eq!(decimal_text(u64::MAX), "18446744073709551615");
    assert_eq!(signed_decimal_text(-7), "-7");
    assert_eq!(signed_decimal_text(i64::MIN), "-9223372036854775808");
    assert_eq!(signed_decimal_text(42), "42");
}

#[test]
fn filter_offers_each_kind_once_in_first_order() {
    let audit = plain_audit(vec![
        plain_event(1, EventKind::Control { holder: "h".into(), note: None }),
        plain_event(2, EventKind::AgentAction { action: "a".into(), forwarded: false }),
        plain_event(3, EventKind::Control { holder: "h".into(), note: Some("n".into()) }),
    ]);
    let html = render_report(&audit);
    let options = "<option value=\"all\">All</option>\n<option value=\"control\">control</option>\n<option value=\"agent-action\">agent-action</option>\n</select>";
    assert!(html.contains(options));
    assert!(html.contains("verb ! a"));
    assert!(html.contains("control → h — n"));
    assert!(html.contains("Agent actions: <strong>1</strong>"));
    assert!(html.contains("Allowed requests: <strong>0</strong>"));
}

#[test]
fn unknown_labels_are_shown_as_written() {
    let mut audit = plain_audit(vec![Event {
        id: 1,
        observed_at: "t".into(),
        lane: EventLane::Unknown("side-channel".into()),
        grade: Grade::Unknown("optimistic".into()),
        caused_by: None,
        claimed_at: Some("c".into()),
        kind: EventKind::PolicyVerdict { subject: "s".into(), reason: "r".into() },
    }]);
    audit.session.engine = Engine::Unknown("future-engine".into());
    audit.sources.actions = Availability::Unknown("archived".into());
    let html = render_report(&audit);
    assert!(html.contains("<dd>future-engine</dd>"));
    assert!(html.contains("<span class=\"avail avail-unknown\">archived</span>"));
    assert!(html.contains("<span class=\"lane lane-unknown\">side-channel</span>"));
    assert!(html.contains("<span class=\"grade\">optimistic</span>"));
    assert!(html.contains(" <span class=\"claimed\">claimed c</span>"));
    assert!(html.contains("refused s — r"));
}

#[test]
fn response_without_status_or_error_says_so() {
    let audit = plain_audit(vec![plain_event(
        1,
        EventKind::Response { seq: 4, status: None, bytes: None, duration_ms: None, error: None },
    )]);
    let html = render_report(&audit);
    assert!(html.contains("<div class=\"detail\">#4 · no response</div>"));
    let failed = plain_audit(vec![plain_event(
        1,
        EventKind::Response {
            seq: 4,
            status: None,
            bytes: None,
            duration_ms: Some(12),
            error: Some("reset".into()),
        },
    )]);
    let html = render_report(&failed);
    assert!(html.contains("<div class=\"detail\">#4 · 12 ms · error reset</div>"));
}

#[test]
fn events_are_marked_with_their_decision() {
    let audit = plain_audit(vec![plain_event(
        8,
        EventKind::Request {
            seq: 1,
            method: "POST".into(),
            url: "https://x/".into(),
            initiator: "fetch".into(),
            allowed: false,
            denied_reason: None,
        },
    )]);
    let html = render_report(&audit);
    assert!(html.contains(
        "<li class=\"event decision-denied\" data-event data-kind=\"request\" data-decision=\"denied\">"
    ));
    assert!(html.contains("<span class=\"badge denied\">Denied</span></div>"));
}

#[test]
fn report_frame_and_no_dropped_note_without_drops() {
    let html = render_report(&plain_audit(vec![]));
    assert!(html.starts_with("<!DOCTYPE html>"));
    assert!(html.ends_with("</html>\n"));
    assert!(!html.contains("class=\"dropped\""));
    assert!(!html.contains("<dt>Name</dt>"));
    assert!(!html.contains("<dt>Identity</dt>"));
}

#[test]
fn json_accessors_and_copy() {
    let j = obj(vec![("a", s("x")), ("b", Json::Array(vec![n(1), Json::Null]))]);
    assert_eq!(j.get("a").and_then(Json::as_str), Some("x"));
    assert!(j.get("c").is_none());
    assert!(s("x").get("a").is_none());
    assert!(n(1).as_str().is_none());
    assert_eq!(j.deep_copy(), j);
}

#[test]
fn text_reads_as_its_document() {
    let text = r#"{"session": {"id": "br", "url": "u", "placement": {"kind": "host"},
        "engine": "h5i-light", "lane": "engine-claimed", "started_at": "t0", "state": "live",
        "policy_digest": "d"},
        "sources": {"actions": "empty", "requests": "empty", "control": "empty"},
        "events": [], "dropped": 0}"#;
    assert_eq!(parse_audit(text).unwrap(), parse_audit_value(minimal(vec![])).unwrap());
}

#[test]
fn escaping_keeps_texts_apart() {
    assert_ne!(esc("&amp;"), esc("&"));
    assert_eq!(esc("&amp;"), "&amp;amp;");
    assert_ne!(esc("<"), esc("&lt;"));
}

#[test]
fn end_to_end_text_roundtrip() {
    let json = r#"{
        "session": {
            "id": "br_cli",
            "url": "https://example.com/",
            "placement": {"kind": "host"},
            "engine": "h5i-light",
            "lane": "engine-claimed",
            "started_at": "2026-01-01T00:00:00.000000Z",
            "state": "closed",
            "policy_digest": "sha256:cli"
        },
        "sources": {
            "actions": "empty",
            "requests": "empty",
            "control": "empty"
        },
        "events": [],
        "dropped": 0
    }"#;
    let html = render_report(&parse_audit(json).unwrap());
    assert!(html.contains("br_cli"));
    assert!(html.contains("<!DOCTYPE html>"));
}

#[test]
fn availability_defaults_to_empty() {
    assert_eq!(Availability::default(), Availability::Empty);
}

#[test]
fn audit_clone_is_equal() {
    let audit = parse_audit(AUDIT_TEXT).unwrap();
    assert_eq!(audit.clone(), audit);
}

#[test]
fn availability_classes_name_their_labels() {
    let mut audit = plain_audit(vec![]);
    audit.sources.actions = Availability::Read;
    audit.sources.requests = Availability::Unavailable;
    audit.sources.control = Availability::Partial;
    let html = render_report(&audit);
    assert!(html.contains("<span class=\"avail avail-read\">read</span>"));
    assert!(html.contains("<span class=\"avail avail-unavailable\">unavailable</span>"));
    assert!(html.contains("<span class=\"avail avail-partial\">partial</span>"));
    assert!(html.contains("<span class=\"avail avail-empty\">empty</span>"));
}

#[test]
fn hostile_texts_load_nothing_and_open_no_frame() {
    let mut audit = plain_audit(vec![plain_event(
        1,
        EventKind::Unknown {
            kind: "<iframe src='http://x'>".into(),
            fields: vec![("<style>".into(), s("</script><script src=\"http://y\">"))],
        },
    )]);
    audit.session.id = "<link href=\"http://z\">".into();
    audit.session.url = "<img src='http://w'></style>".into();
    let html = render_report(&audit);
    for tag in ["<link", "<img", "<iframe", "src=\"http", "src='http", "href=\"http", "href='http"] {
        assert!(!html.contains(tag), "{tag}");
    }
    assert_eq!(html.matches("<style").count(), 1);
    assert_eq!(html.matches("<script").count(), 1);
    assert_eq!(html.matches("</script").count(), 1);
}

#[test]
fn availability_class_is_avail_and_label() {
    for a in [Availability::Read, Availability::Empty, Availability::Unavailable, Availability::Partial] {
        assert_eq!(availability_class(&a), format!("avail-{}", availability_label(&a)));
    }
    assert_ne!(availability_label(&Availability::Unavailable), availability_label(&Availability::Empty));
}
