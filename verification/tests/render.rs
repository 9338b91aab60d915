use h5i_audit_report::json::Json;
use h5i_audit_report::model::{
    Audit, Availability, Engine, Event, EventKind, EventLane, Grade, Placement, Session,
    SessionLane, Sources, State,
};
use h5i_audit_report::render_report;

fn sample_audit(events: Vec<Event>) -> Audit {
    Audit {
        session: Session {
            id: "br_test".into(),
            name: None,
            url: "https://example.com/".into(),
            placement: Placement::Host,
            engine: Engine::H5iLight,
            lane: SessionLane::EngineClaimed,
            started_at: "2026-01-01T00:00:00.000000Z".into(),
            ended_at: Some("2026-01-01T00:01:00.000000Z".into()),
            end_reason: Some("closed by the user".into()),
            state: State::Closed,
            policy_digest: "sha256:abc".into(),
            identity: String::new(),
            identity_digest: String::new(),
            confinement: None,
            restored_from: None,
        },
        sources: Sources {
            actions: Availability::Read,
            requests: Availability::Unavailable,
            control: Availability::Empty,
            helpers: Availability::Empty,
            messages: Availability::Partial,
        },
        events,
        dropped: 0,
    }
}

fn envelope(id: u64, kind: EventKind) -> Event {
    Event {
        id,
        observed_at: format!("2026-01-01T00:00:0{id}.000000Z"),
        lane: EventLane::BoxClaimed,
        grade: Grade::FailClosed,
        caused_by: None,
        claimed_at: None,
        kind,
    }
}

#[test]
fn basic_report_generation() {
    let html = render_report(&sample_audit(vec![]));
    assert!(html.starts_with("<!DOCTYPE html>"));
    assert!(html.contains("</html>"));
    assert!(html.contains("<style>"));
    assert!(html.contains("<script>"));
}

#[test]
fn session_fields_appear() {
    let html = render_report(&sample_audit(vec![]));
    assert!(html.contains("br_test"));
    assert!(html.contains("https://example.com/"));
    assert!(html.contains("h5i-light"));
    assert!(html.contains("closed"));
    assert!(html.contains("sha256:abc"));
    assert!(html.contains("closed by the user"));
    assert!(html.contains("2026-01-01T00:00:00.000000Z"));
    assert!(html.contains("2026-01-01T00:01:00.000000Z"));
}

#[test]
fn sources_distinguish_unavailable() {
    let html = render_report(&sample_audit(vec![]));
    assert!(html.contains("avail-unavailable"));
    assert!(html.contains(">unavailable<"));
    assert!(html.contains("avail-partial"));
    assert!(html.contains("avail-empty"));
    assert!(html.contains("avail-read"));
}

#[test]
fn request_allowed_and_denied() {
    let audit = sample_audit(vec![
        envelope(
            1,
            EventKind::Request {
                seq: 1,
                method: "GET".into(),
                url: "https://example.com/".into(),
                initiator: "navigation".into(),
                allowed: true,
                denied_reason: None,
            },
        ),
        envelope(
            2,
            EventKind::Request {
                seq: 2,
                method: "GET".into(),
                url: "https://tracker.example/".into(),
                initiator: "subresource".into(),
                allowed: false,
                denied_reason: Some("not allowlisted".into()),
            },
        ),
    ]);
    let html = render_report(&audit);
    assert!(html.contains("Allowed"));
    assert!(html.contains("Denied"));
    assert!(html.contains("not allowlisted"));
    assert!(html.contains("Allowed requests: <strong>1</strong>"));
    assert!(html.contains("Denied requests: <strong>1</strong>"));
}

#[test]
fn render_event_order_is_preserved() {
    let audit = sample_audit(vec![
        envelope(
            3,
            EventKind::AgentAction {
                action: "click".into(),
                forwarded: true,
            },
        ),
        envelope(
            1,
            EventKind::Lifecycle {
                state: "opened".into(),
                reason: None,
            },
        ),
        envelope(
            2,
            EventKind::Control {
                holder: "human".into(),
                note: None,
            },
        ),
    ]);
    let html = render_report(&audit);
    let i3 = html.find("<span class=\"eid\">#3</span>").unwrap();
    let i1 = html.find("<span class=\"eid\">#1</span>").unwrap();
    let i2 = html.find("<span class=\"eid\">#2</span>").unwrap();
    assert!(i3 < i1 && i1 < i2, "order broken: {i3} {i1} {i2}");
}

#[test]
fn unknown_event_kind_is_rendered() {
    let fields = vec![("url".to_string(), Json::Str("https://example.com/next".into()))];
    let audit = sample_audit(vec![envelope(
        9,
        EventKind::Unknown {
            kind: "navigated".into(),
            fields,
        },
    )]);
    let html = render_report(&audit);
    assert!(html.contains("navigated"));
    assert!(html.contains("https://example.com/next"));
    assert!(html.contains("data-kind=\"navigated\""));
}

#[test]
fn malicious_html_is_escaped() {
    let evil = "<script>alert(1)</script>";
    let audit = Audit {
        session: Session {
            id: evil.into(),
            name: None,
            url: evil.into(),
            placement: Placement::Host,
            engine: Engine::H5iLight,
            lane: SessionLane::EngineClaimed,
            started_at: evil.into(),
            ended_at: Some(evil.into()),
            end_reason: Some(evil.into()),
            state: State::Closed,
            policy_digest: evil.into(),
            identity: String::new(),
            identity_digest: String::new(),
            confinement: None,
            restored_from: None,
        },
        sources: Sources {
            actions: Availability::Empty,
            requests: Availability::Empty,
            control: Availability::Empty,
            helpers: Availability::Empty,
            messages: Availability::Empty,
        },
        events: vec![envelope(
            1,
            EventKind::Request {
                seq: 1,
                method: "GET".into(),
                url: evil.into(),
                initiator: evil.into(),
                allowed: false,
                denied_reason: Some(evil.into()),
            },
        )],
        dropped: 0,
    };
    let html = render_report(&audit);
    assert!(!html.contains("<script>alert(1)</script>"));
    assert!(html.contains("&lt;script&gt;alert(1)&lt;/script&gt;"));
}

#[test]
fn no_external_resource_references() {
    let html = render_report(&sample_audit(vec![]));
    let lower = html.to_ascii_lowercase();
    assert!(!lower.contains("cdn."));
    assert!(!lower.contains("@import"));
    assert!(!lower.contains("<link "));
    assert!(!lower.contains("src=\"http"));
    assert!(!lower.contains("src='http"));
    assert!(!lower.contains("href=\"http"));
    assert!(!lower.contains("href='http"));
}
