//! Self-contained HTML report for a session audit.
//!
//! `report_html` states the whole report: a fixed page around the audit's data, in which
//! every text taken from the audit is HTML-escaped. The page embeds its style sheet and
//! script and loads nothing.

use crate::json::{compact_json, serde_json_compact, Json, JsonModel};
use crate::model::{
    Audit, AuditModel, Availability, AvailabilityModel, Engine, EngineModel, Event, EventKind,
    EventKindModel, EventLane, EventLaneModel, EventModel, Grade, GradeModel, Members, Placement,
    PlacementModel, Session, SessionLane, SessionLaneModel, SessionModel, Sources, SourcesModel,
    State, StateModel,
};
use crate::text::{
    decimal, decimal_text, esc, escape, lemma_extend, signed_decimal, signed_decimal_text,
};
use vstd::prelude::*;
use vstd::string::*;

verus! {

// ---------------------------------------------------------------------------
// Labels
// ---------------------------------------------------------------------------
pub open spec fn spec_engine_label(e: EngineModel) -> Seq<char> {
    match e {
        EngineModel::H5iLight => "h5i-light"@,
        EngineModel::Chromium => "chromium"@,
        EngineModel::Unknown(s) => s,
    }
}

pub open spec fn spec_session_lane_label(l: SessionLaneModel) -> Seq<char> {
    match l {
        SessionLaneModel::EngineClaimed => "engine-claimed"@,
        SessionLaneModel::HostObserved => "host-observed"@,
        SessionLaneModel::Unknown(s) => s,
    }
}

pub open spec fn spec_state_label(s: StateModel) -> Seq<char> {
    match s {
        StateModel::Live => "live"@,
        StateModel::Closed => "closed"@,
        StateModel::Died => "died"@,
        StateModel::Expired => "expired"@,
        StateModel::Evicted => "evicted"@,
        StateModel::Unknown(t) => t,
    }
}

pub open spec fn spec_availability_label(a: AvailabilityModel) -> Seq<char> {
    match a {
        AvailabilityModel::Read => "read"@,
        AvailabilityModel::Empty => "empty"@,
        AvailabilityModel::Unavailable => "unavailable"@,
        AvailabilityModel::Partial => "partial"@,
        AvailabilityModel::Unknown(s) => s,
    }
}

pub open spec fn spec_availability_class(a: AvailabilityModel) -> Seq<char> {
    match a {
        AvailabilityModel::Read => "avail-read"@,
        AvailabilityModel::Empty => "avail-empty"@,
        AvailabilityModel::Unavailable => "avail-unavailable"@,
        AvailabilityModel::Partial => "avail-partial"@,
        AvailabilityModel::Unknown(_) => "avail-unknown"@,
    }
}

pub open spec fn spec_event_lane_label(l: EventLaneModel) -> Seq<char> {
    match l {
        EventLaneModel::HostObserved => "host-observed"@,
        EventLaneModel::BoxClaimed => "box-claimed"@,
        EventLaneModel::Unknown(s) => s,
    }
}

pub open spec fn spec_event_lane_class(l: EventLaneModel) -> Seq<char> {
    match l {
        EventLaneModel::HostObserved => "lane-host"@,
        EventLaneModel::BoxClaimed => "lane-box"@,
        EventLaneModel::Unknown(_) => "lane-unknown"@,
    }
}

pub open spec fn spec_grade_label(g: GradeModel) -> Seq<char> {
    match g {
        GradeModel::FailClosed => "fail-closed"@,
        GradeModel::BestEffort => "best-effort"@,
        GradeModel::Unknown(s) => s,
    }
}

pub open spec fn spec_placement_label(p: PlacementModel) -> Seq<char> {
    match p {
        PlacementModel::Host => "host"@,
        PlacementModel::Box { name } => "box ("@ + name + ")"@,
        PlacementModel::Unknown { kind, .. } => kind,
    }
}

pub open spec fn spec_kind_name(k: EventKindModel) -> Seq<char> {
    match k {
        EventKindModel::Lifecycle { .. } => "lifecycle"@,
        EventKindModel::AgentAction { .. } => "agent-action"@,
        EventKindModel::Request { .. } => "request"@,
        EventKindModel::Response { .. } => "response"@,
        EventKindModel::PolicyVerdict { .. } => "policy-verdict"@,
        EventKindModel::Control { .. } => "control"@,
        EventKindModel::Helper { .. } => "helper"@,
        EventKindModel::Unknown { kind, .. } => kind,
    }
}

fn engine_label(e: &Engine) -> (r: &str)
    ensures
        r@ == spec_engine_label(e@),
{
    match e {
        Engine::H5iLight => "h5i-light",
        Engine::Chromium => "chromium",
        Engine::Unknown(s) => s.as_str(),
    }
}

fn session_lane_label(l: &SessionLane) -> (r: &str)
    ensures
        r@ == spec_session_lane_label(l@),
{
    match l {
        SessionLane::EngineClaimed => "engine-claimed",
        SessionLane::HostObserved => "host-observed",
        SessionLane::Unknown(s) => s.as_str(),
    }
}

fn state_label(s: &State) -> (r: &str)
    ensures
        r@ == spec_state_label(s@),
{
    match s {
        State::Live => "live",
        State::Closed => "closed",
        State::Died => "died",
        State::Expired => "expired",
        State::Evicted => "evicted",
        State::Unknown(t) => t.as_str(),
    }
}

/// How the availability of an audit source is shown.
pub fn availability_label(a: &Availability) -> (r: &str)
    ensures
        r@ == spec_availability_label(a@),
{
    match a {
        Availability::Read => "read",
        Availability::Empty => "empty",
        Availability::Unavailable => "unavailable",
        Availability::Partial => "partial",
        Availability::Unknown(s) => s.as_str(),
    }
}

/// The CSS class of an availability: `avail-` and its label, for the known values.
pub fn availability_class(a: &Availability) -> (r: &str)
    ensures
        r@ == spec_availability_class(a@),
{
    match a {
        Availability::Read => "avail-read",
        Availability::Empty => "avail-empty",
        Availability::Unavailable => "avail-unavailable",
        Availability::Partial => "avail-partial",
        Availability::Unknown(_) => "avail-unknown",
    }
}

fn event_lane_label(l: &EventLane) -> (r: &str)
    ensures
        r@ == spec_event_lane_label(l@),
{
    match l {
        EventLane::HostObserved => "host-observed",
        EventLane::BoxClaimed => "box-claimed",
        EventLane::Unknown(s) => s.as_str(),
    }
}

fn event_lane_class(l: &EventLane) -> (r: &str)
    ensures
        r@ == spec_event_lane_class(l@),
{
    match l {
        EventLane::HostObserved => "lane-host",
        EventLane::BoxClaimed => "lane-box",
        EventLane::Unknown(_) => "lane-unknown",
    }
}

fn grade_label(g: &Grade) -> (r: &str)
    ensures
        r@ == spec_grade_label(g@),
{
    match g {
        Grade::FailClosed => "fail-closed",
        Grade::BestEffort => "best-effort",
        Grade::Unknown(s) => s.as_str(),
    }
}

fn placement_label(p: &Placement) -> (r: String)
    ensures
        r@ == spec_placement_label(p@),
{
    match p {
        Placement::Host => String::from_str("host"),
        Placement::Box { name } => {
            let mut r = String::from_str("box (");
            r.append(name.as_str());
            r.append(")");
            r
        },
        Placement::Unknown { kind, .. } => kind.clone(),
    }
}

fn kind_name(k: &EventKind) -> (r: &str)
    ensures
        r@ == spec_kind_name(k@),
{
    match k {
        EventKind::Lifecycle { .. } => "lifecycle",
        EventKind::AgentAction { .. } => "agent-action",
        EventKind::Request { .. } => "request",
        EventKind::Response { .. } => "response",
        EventKind::PolicyVerdict { .. } => "policy-verdict",
        EventKind::Control { .. } => "control",
        EventKind::Helper { .. } => "helper",
        EventKind::Unknown { kind, .. } => kind.as_str(),
    }
}

// ---------------------------------------------------------------------------
// Session
// ---------------------------------------------------------------------------
/// One labelled entry of a summary list.
pub open spec fn row_html(label: Seq<char>, value: Seq<char>) -> Seq<char> {
    "<dt>"@ + escape(label) + "</dt><dd>"@ + escape(value) + "</dd>\n"@
}

/// The text of an optional value, or a dash.
pub open spec fn or_dash(v: Option<Seq<char>>) -> Seq<char> {
    match v {
        Some(t) => t,
        None => "—"@,
    }
}

pub open spec fn session_html(s: SessionModel) -> Seq<char> {
    "<section>\n<h2>Session</h2>\n<dl class=\"summary\">\n"@
        + row_html("ID"@, s.id)
        + match s.name {
            Some(n) => row_html("Name"@, n),
            None => Seq::empty(),
        }
        + row_html("URL"@, s.url)
        + row_html("Placement"@, spec_placement_label(s.placement))
        + row_html("Engine"@, spec_engine_label(s.engine))
        + row_html("Session lane"@, spec_session_lane_label(s.lane))
        + row_html("State"@, spec_state_label(s.state))
        + row_html("Started"@, s.started_at)
        + row_html("Ended"@, or_dash(s.ended_at))
        + row_html("End reason"@, or_dash(s.end_reason))
        + row_html("Policy digest"@, s.policy_digest)
        + if s.identity.len() > 0 {
            row_html("Identity"@, s.identity)
        } else {
            Seq::empty()
        }
        + "</dl>\n</section>\n"@
}

fn row(out: &mut String, label: &str, value: &str)
    ensures
        final(out)@ == old(out)@ + row_html(label@, value@),
{
    let ghost start = out@;
    out.append("<dt>");
    out.append(esc(label).as_str());
    out.append("</dt><dd>");
    out.append(esc(value).as_str());
    out.append("</dd>\n");
    assert(out@ =~= start + row_html(label@, value@));
}

fn optional_text(v: &Option<String>) -> (r: &str)
    ensures
        r@ == or_dash(crate::model::opt_view(*v)),
{
    match v {
        Some(t) => t.as_str(),
        None => "—",
    }
}

fn render_session(out: &mut String, audit: &Audit)
    ensures
        final(out)@ == old(out)@ + session_html(audit.session@),
{
    let ghost start = out@;
    let ghost sm = audit.session@;
    let s = &audit.session;
    out.append("<section>\n<h2>Session</h2>\n<dl class=\"summary\">\n");
    let ghost mut acc = "<section>\n<h2>Session</h2>\n<dl class=\"summary\">\n"@;
    row(out, "ID", s.id.as_str());
    proof {
        lemma_extend(start, acc, row_html("ID"@, sm.id));
        acc = acc + row_html("ID"@, sm.id);
    }
    if let Some(name) = &s.name {
        row(out, "Name", name.as_str());
    } else {
        assert(out@ =~= out@ + Seq::<char>::empty());
    }
    proof {
        let piece = match sm.name {
            Some(n) => row_html("Name"@, n),
            None => Seq::<char>::empty(),
        };
        lemma_extend(start, acc, piece);
        acc = acc + piece;
    }
    row(out, "URL", s.url.as_str());
    proof {
        lemma_extend(start, acc, row_html("URL"@, sm.url));
        acc = acc + row_html("URL"@, sm.url);
    }
    let placement = placement_label(&s.placement);
    row(out, "Placement", placement.as_str());
    proof {
        let piece = row_html("Placement"@, spec_placement_label(sm.placement));
        lemma_extend(start, acc, piece);
        acc = acc + piece;
    }
    row(out, "Engine", engine_label(&s.engine));
    proof {
        let piece = row_html("Engine"@, spec_engine_label(sm.engine));
        lemma_extend(start, acc, piece);
        acc = acc + piece;
    }
    row(out, "Session lane", session_lane_label(&s.lane));
    proof {
        let piece = row_html("Session lane"@, spec_session_lane_label(sm.lane));
        lemma_extend(start, acc, piece);
        acc = acc + piece;
    }
    row(out, "State", state_label(&s.state));
    proof {
        let piece = row_html("State"@, spec_state_label(sm.state));
        lemma_extend(start, acc, piece);
        acc = acc + piece;
    }
    row(out, "Started", s.started_at.as_str());
    proof {
        let piece = row_html("Started"@, sm.started_at);
        lemma_extend(start, acc, piece);
        acc = acc + piece;
    }
    row(out, "Ended", optional_text(&s.ended_at));
    proof {
        let piece = row_html("Ended"@, or_dash(sm.ended_at));
        lemma_extend(start, acc, piece);
        acc = acc + piece;
    }
    row(out, "End reason", optional_text(&s.end_reason));
    proof {
        let piece = row_html("End reason"@, or_dash(sm.end_reason));
        lemma_extend(start, acc, piece);
        acc = acc + piece;
    }
    row(out, "Policy digest", s.policy_digest.as_str());
    proof {
        let piece = row_html("Policy digest"@, sm.policy_digest);
        lemma_extend(start, acc, piece);
        acc = acc + piece;
    }
    if !s.identity.as_str().is_empty() {
        row(out, "Identity", s.identity.as_str());
    } else {
        assert(out@ =~= out@ + Seq::<char>::empty());
    }
    proof {
        let piece = if sm.identity.len() > 0 {
            row_html("Identity"@, sm.identity)
        } else {
            Seq::<char>::empty()
        };
        lemma_extend(start, acc, piece);
        acc = acc + piece;
    }
    out.append("</dl>\n</section>\n");
    proof {
        lemma_extend(start, acc, "</dl>\n</section>\n"@);
        acc = acc + "</dl>\n</section>\n"@;
        assert(acc == session_html(sm));
    }
}

// ---------------------------------------------------------------------------
// Evidence sources
// ---------------------------------------------------------------------------
pub open spec fn source_item_html(name: Seq<char>, a: AvailabilityModel) -> Seq<char> {
    "<li><span class=\"src-name\">"@ + escape(name) + "</span> <span class=\"avail "@
        + spec_availability_class(a) + "\">"@ + escape(spec_availability_label(a)) + "</span></li>\n"@
}

pub open spec fn dropped_html(dropped: u64) -> Seq<char> {
    if dropped > 0 {
        "<p class=\"dropped\">"@ + escape(
            decimal(dropped as nat) + " older event(s) were dropped by the audit cap."@,
        ) + "</p>\n"@
    } else {
        Seq::empty()
    }
}

pub open spec fn sources_html(src: SourcesModel, dropped: u64) -> Seq<char> {
    "<section>\n<h2>Evidence sources</h2>\n<ul class=\"sources\">\n"@
        + source_item_html("actions"@, src.actions)
        + source_item_html("requests"@, src.requests)
        + source_item_html("control"@, src.control)
        + source_item_html("helpers"@, src.helpers)
        + source_item_html("messages"@, src.messages)
        + "</ul>\n"@
        + dropped_html(dropped)
        + "</section>\n"@
}

fn source_item(out: &mut String, name: &str, availability: &Availability)
    ensures
        final(out)@ == old(out)@ + source_item_html(name@, availability@),
{
    let ghost start = out@;
    let label = availability_label(availability);
    out.append("<li><span class=\"src-name\">");
    out.append(esc(name).as_str());
    out.append("</span> <span class=\"avail ");
    out.append(availability_class(availability));
    out.append("\">");
    out.append(esc(label).as_str());
    out.append("</span></li>\n");
    assert(out@ =~= start + source_item_html(name@, availability@));
}

fn render_dropped(out: &mut String, dropped: u64)
    ensures
        final(out)@ == old(out)@ + dropped_html(dropped),
{
    let ghost start = out@;
    if dropped > 0 {
        out.append("<p class=\"dropped\">");
        let mut note = decimal_text(dropped);
        note.append(" older event(s) were dropped by the audit cap.");
        out.append(esc(note.as_str()).as_str());
        out.append("</p>\n");
    }
    assert(out@ =~= start + dropped_html(dropped));
}

fn render_sources(out: &mut String, sources: &Sources, dropped: u64)
    ensures
        final(out)@ == old(out)@ + sources_html(sources@, dropped),
{
    let ghost start = out@;
    let ghost sm = sources@;
    out.append("<section>\n<h2>Evidence sources</h2>\n<ul class=\"sources\">\n");
    let ghost mut acc = "<section>\n<h2>Evidence sources</h2>\n<ul class=\"sources\">\n"@;
    source_item(out, "actions", &sources.actions);
    proof {
        let piece = source_item_html("actions"@, sm.actions);
        lemma_extend(start, acc, piece);
        acc = acc + piece;
    }
    source_item(out, "requests", &sources.requests);
    proof {
        let piece = source_item_html("requests"@, sm.requests);
        lemma_extend(start, acc, piece);
        acc = acc + piece;
    }
    source_item(out, "control", &sources.control);
    proof {
        let piece = source_item_html("control"@, sm.control);
        lemma_extend(start, acc, piece);
        acc = acc + piece;
    }
    source_item(out, "helpers", &sources.helpers);
    proof {
        let piece = source_item_html("helpers"@, sm.helpers);
        lemma_extend(start, acc, piece);
        acc = acc + piece;
    }
    source_item(out, "messages", &sources.messages);
    proof {
        let piece = source_item_html("messages"@, sm.messages);
        lemma_extend(start, acc, piece);
        acc = acc + piece;
    }
    out.append("</ul>\n");
    proof {
        lemma_extend(start, acc, "</ul>\n"@);
        acc = acc + "</ul>\n"@;
    }
    render_dropped(out, dropped);
    proof {
        lemma_extend(start, acc, dropped_html(dropped));
        acc = acc + dropped_html(dropped);
    }
    out.append("</section>\n");
    proof {
        lemma_extend(start, acc, "</section>\n"@);
        acc = acc + "</section>\n"@;
        assert(acc == sources_html(sm, dropped));
    }
}

// ---------------------------------------------------------------------------
// Summary counts
// ---------------------------------------------------------------------------
/// How many events are agent actions.
pub open spec fn count_actions(es: Seq<EventModel>) -> nat
    decreases es.len(),
{
    if es.len() == 0 {
        0
    } else {
        count_actions(es.drop_last()) + if es.last().kind is AgentAction {
            1nat
        } else {
            0nat
        }
    }
}

/// How many events are requests with the decision `allowed`.
pub open spec fn count_requests(es: Seq<EventModel>, allowed: bool) -> nat
    decreases es.len(),
{
    if es.len() == 0 {
        0
    } else {
        count_requests(es.drop_last(), allowed) + if es.last().kind is Request
            && es.last().kind->Request_allowed == allowed {
            1nat
        } else {
            0nat
        }
    }
}

pub open spec fn counts_html(es: Seq<EventModel>) -> Seq<char> {
    "<section>\n<h2>Summary</h2>\n<ul class=\"counts\">\n"@
        + "<li>Agent actions: <strong>"@ + decimal(count_actions(es)) + "</strong></li>\n"@
        + "<li>Allowed requests: <strong>"@ + decimal(count_requests(es, true)) + "</strong></li>\n"@
        + "<li>Denied requests: <strong>"@ + decimal(count_requests(es, false)) + "</strong></li>\n"@
        + "</ul>\n</section>\n"@
}

/// A count never exceeds the number of events counted.
proof fn lemma_counts_bounded(es: Seq<EventModel>)
    ensures
        count_actions(es) <= es.len(),
        count_requests(es, true) <= es.len(),
        count_requests(es, false) <= es.len(),
    decreases es.len(),
{
    if es.len() > 0 {
        lemma_counts_bounded(es.drop_last());
    }
}

fn render_counts(out: &mut String, audit: &Audit)
    ensures
        final(out)@ == old(out)@ + counts_html(audit@.events),
{
    let ghost es = audit@.events;
    let mut actions: u64 = 0;
    let mut allowed: u64 = 0;
    let mut denied: u64 = 0;
    let mut i: usize = 0;
    assert(es.take(0) =~= Seq::<EventModel>::empty());
    while i < audit.events.len()
        invariant
            i <= audit.events.len(),
            es == audit@.events,
            es.len() == audit.events.len(),
            forall|t: int| 0 <= t < es.len() ==> #[trigger] es[t] == audit.events@[t]@,
            actions == count_actions(es.take(i as int)),
            allowed == count_requests(es.take(i as int), true),
            denied == count_requests(es.take(i as int), false),
        decreases audit.events.len() - i,
    {
        proof {
            assert(es.take(i + 1).drop_last() =~= es.take(i as int));
            lemma_counts_bounded(es.take(i as int));
        }
        match &audit.events[i].kind {
            EventKind::AgentAction { .. } => actions = actions + 1,
            EventKind::Request { allowed: true, .. } => allowed = allowed + 1,
            EventKind::Request { allowed: false, .. } => denied = denied + 1,
            _ => {},
        }
        i = i + 1;
    }
    assert(es.take(i as int) =~= es);
    let ghost start = out@;
    out.append("<section>\n<h2>Summary</h2>\n<ul class=\"counts\">\n");
    out.append("<li>Agent actions: <strong>");
    out.append(decimal_text(actions).as_str());
    out.append("</strong></li>\n");
    out.append("<li>Allowed requests: <strong>");
    out.append(decimal_text(allowed).as_str());
    out.append("</strong></li>\n");
    out.append("<li>Denied requests: <strong>");
    out.append(decimal_text(denied).as_str());
    out.append("</strong></li>\n");
    out.append("</ul>\n</section>\n");
    assert(out@ =~= start + counts_html(es));
}

// ---------------------------------------------------------------------------
// Filters
// ---------------------------------------------------------------------------
/// The event kinds of `es`, each once, in the order they first occur.
pub open spec fn distinct_kinds(es: Seq<EventModel>) -> Seq<Seq<char>>
    decreases es.len(),
{
    if es.len() == 0 {
        Seq::empty()
    } else {
        let seen = distinct_kinds(es.drop_last());
        let k = spec_kind_name(es.last().kind);
        if seen.contains(k) {
            seen
        } else {
            seen.push(k)
        }
    }
}

pub open spec fn option_html(k: Seq<char>) -> Seq<char> {
    "<option value=\""@ + escape(k) + "\">"@ + escape(k) + "</option>\n"@
}

pub open spec fn options_html(ks: Seq<Seq<char>>) -> Seq<char>
    decreases ks.len(),
{
    if ks.len() == 0 {
        Seq::empty()
    } else {
        options_html(ks.drop_last()) + option_html(ks.last())
    }
}

pub const DECISION_FILTER: &'static str = "<label>Request decision <select id=\"filter-decision\">\n<option value=\"all\">All</option>\n<option value=\"allowed\">Allowed</option>\n<option value=\"denied\">Denied</option>\n</select></label>\n";

pub open spec fn filters_html(es: Seq<EventModel>) -> Seq<char> {
    "<section class=\"filters\">\n<h2>Timeline</h2>\n"@ + "<div class=\"filter-bar\">\n"@
        + "<label>Event type <select id=\"filter-type\">\n"@
        + "<option value=\"all\">All</option>\n"@ + options_html(distinct_kinds(es))
        + "</select></label>\n"@ + DECISION_FILTER@ + "</div>\n"@
}

fn contains_text(items: &Vec<String>, k: &str) -> (r: bool)
    ensures
        r == items@.map_values(|s: String| s@).contains(k@),
{
    let ghost texts = items@.map_values(|s: String| s@);
    let key = String::from_str(k);
    let mut i: usize = 0;
    while i < items.len()
        invariant
            i <= items.len(),
            texts == items@.map_values(|s: String| s@),
            key@ == k@,
            forall|t: int| 0 <= t < i ==> texts[t] != k@,
        decreases items.len() - i,
    {
        if items[i] == key {
            assert(texts[i as int] == k@);
            return true;
        }
        i = i + 1;
    }
    false
}

fn render_filters(out: &mut String, audit: &Audit)
    ensures
        final(out)@ == old(out)@ + filters_html(audit@.events),
{
    let ghost es = audit@.events;
    let mut kinds: Vec<String> = Vec::new();
    let mut i: usize = 0;
    assert(es.take(0) =~= Seq::<EventModel>::empty());
    assert(kinds@.map_values(|s: String| s@) =~= Seq::<Seq<char>>::empty());
    while i < audit.events.len()
        invariant
            i <= audit.events.len(),
            es == audit@.events,
            es.len() == audit.events.len(),
            forall|t: int| 0 <= t < es.len() ==> #[trigger] es[t] == audit.events@[t]@,
            kinds@.map_values(|s: String| s@) == distinct_kinds(es.take(i as int)),
        decreases audit.events.len() - i,
    {
        assert(es.take(i + 1).drop_last() =~= es.take(i as int));
        let k = kind_name(&audit.events[i].kind);
        if !contains_text(&kinds, k) {
            let ghost before = kinds@;
            kinds.push(String::from_str(k));
            assert(kinds@.map_values(|s: String| s@) =~= before.map_values(|s: String| s@).push(k@));
        }
        i = i + 1;
    }
    assert(es.take(i as int) =~= es);
    let ghost start = out@;
    out.append("<section class=\"filters\">\n<h2>Timeline</h2>\n");
    out.append("<div class=\"filter-bar\">\n");
    out.append("<label>Event type <select id=\"filter-type\">\n");
    out.append("<option value=\"all\">All</option>\n");
    let ghost before_options = out@;
    let ghost ks = kinds@.map_values(|s: String| s@);
    let mut j: usize = 0;
    assert(ks.take(0) =~= Seq::<Seq<char>>::empty());
    assert(before_options =~= before_options + options_html(ks.take(0)));
    while j < kinds.len()
        invariant
            j <= kinds.len(),
            ks == kinds@.map_values(|s: String| s@),
            out@ == before_options + options_html(ks.take(j as int)),
        decreases kinds.len() - j,
    {
        assert(ks.take(j + 1).drop_last() =~= ks.take(j as int));
        let ghost before = out@;
        out.append("<option value=\"");
        out.append(esc(kinds[j].as_str()).as_str());
        out.append("\">");
        out.append(esc(kinds[j].as_str()).as_str());
        out.append("</option>\n");
        assert(out@ =~= before + option_html(ks[j as int]));
        assert(out@ =~= before_options + options_html(ks.take(j + 1)));
        j = j + 1;
    }
    assert(ks.take(j as int) =~= ks);
    out.append("</select></label>\n");
    out.append(DECISION_FILTER);
    out.append("</div>\n");
    assert(out@ =~= start + filters_html(es));
}

// ---------------------------------------------------------------------------
// Timeline
// ---------------------------------------------------------------------------
/// How a JSON value of an unknown member is shown: a string as itself, anything else as
/// compact JSON.
pub open spec fn preview(v: JsonModel) -> Seq<char> {
    match v {
        JsonModel::Str(s) => s,
        _ => serde_json_compact(v),
    }
}

fn value_preview(v: &Json) -> (r: String)
    ensures
        r@ == preview(v@),
{
    match v {
        Json::Str(s) => s.clone(),
        _ => compact_json(v),
    }
}

/// `parts` joined with `sep` between neighbours.
pub open spec fn join(parts: Seq<Seq<char>>, sep: Seq<char>) -> Seq<char>
    decreases parts.len(),
{
    if parts.len() == 0 {
        Seq::empty()
    } else if parts.len() == 1 {
        parts[0]
    } else {
        join(parts.drop_last(), sep) + sep + parts.last()
    }
}

fn join_strings(parts: &Vec<String>, sep: &str) -> (r: String)
    ensures
        r@ == join(parts@.map_values(|s: String| s@), sep@),
{
    let ghost ps = parts@.map_values(|s: String| s@);
    let mut out = String::new();
    let mut i: usize = 0;
    assert(ps.take(0) =~= Seq::<Seq<char>>::empty());
    while i < parts.len()
        invariant
            i <= parts.len(),
            ps == parts@.map_values(|s: String| s@),
            out@ == join(ps.take(i as int), sep@),
        decreases parts.len() - i,
    {
        assert(ps.take(i + 1).drop_last() =~= ps.take(i as int));
        if i == 0 {
            out.append(parts[i].as_str());
            assert(ps.take(1) =~= seq![ps[0]]);
        } else {
            out.append(sep);
            out.append(parts[i].as_str());
        }
        i = i + 1;
    }
    assert(ps.take(i as int) =~= ps);
    out
}

/// A note after a dash, when there is one.
pub open spec fn dash_note(note: Option<Seq<char>>) -> Seq<char> {
    match note {
        Some(n) => " — "@ + escape(n),
        None => Seq::empty(),
    }
}

pub open spec fn field_item_html(f: (Seq<char>, JsonModel)) -> Seq<char> {
    "<li><code>"@ + escape(f.0) + "</code>: "@ + escape(preview(f.1)) + "</li>"@
}

pub open spec fn field_items_html(fields: Members) -> Seq<char>
    decreases fields.len(),
{
    if fields.len() == 0 {
        Seq::empty()
    } else {
        field_items_html(fields.drop_last()) + field_item_html(fields.last())
    }
}

pub open spec fn request_detail(
    seq: u64,
    method: Seq<char>,
    url: Seq<char>,
    initiator: Seq<char>,
    allowed: bool,
    denied_reason: Option<Seq<char>>,
) -> Seq<char> {
    escape("#"@ + decimal(seq as nat) + " "@) + escape(method) + " "@ + escape(url)
        + " <span class=\"initiator\">"@ + escape(initiator) + "</span> "@ + if allowed {
        "<span class=\"badge allowed\">Allowed</span>"@
    } else {
        "<span class=\"badge denied\">Denied</span>"@ + dash_note(denied_reason)
    }
}

pub open spec fn response_detail(
    seq: u64,
    status: Option<u16>,
    bytes: Option<u64>,
    duration_ms: Option<u64>,
    error: Option<Seq<char>>,
) -> Seq<char> {
    escape("#"@ + decimal(seq as nat)) + match status {
        Some(st) => escape(" status "@ + decimal(st as nat)),
        None => Seq::empty(),
    } + match bytes {
        Some(b) => escape(" · "@ + decimal(b as nat) + " bytes"@),
        None => Seq::empty(),
    } + match duration_ms {
        Some(ms) => escape(" · "@ + decimal(ms as nat) + " ms"@),
        None => Seq::empty(),
    } + match error {
        Some(e) => " · error "@ + escape(e),
        None => Seq::empty(),
    } + if status is None && error is None {
        " · no response"@
    } else {
        Seq::empty()
    }
}

pub open spec fn helper_detail(
    name: Seq<char>,
    argv: Seq<Seq<char>>,
    status: Option<i32>,
    note: Option<Seq<char>>,
) -> Seq<char> {
    "helper "@ + escape(name) + " "@ + escape(join(argv, " "@)) + match status {
        Some(st) => escape(" (exit "@ + signed_decimal(st as int) + ")"@),
        None => Seq::empty(),
    } + dash_note(note)
}

pub open spec fn unknown_detail(kind: Seq<char>, fields: Members) -> Seq<char> {
    "unsupported kind "@ + escape(kind) + if fields.len() > 0 {
        "<ul class=\"unknown-fields\">"@ + field_items_html(fields) + "</ul>"@
    } else {
        Seq::empty()
    }
}

/// The detail line of an event, by kind.
pub open spec fn detail_html(k: EventKindModel) -> Seq<char> {
    match k {
        EventKindModel::Lifecycle { state, reason } => "state "@ + escape(state) + dash_note(reason),
        EventKindModel::AgentAction { action, forwarded } => (if forwarded {
            "verb "@
        } else {
            "verb ! "@
        }) + escape(action),
        EventKindModel::Request { seq, method, url, initiator, allowed, denied_reason } =>
            request_detail(seq, method, url, initiator, allowed, denied_reason),
        EventKindModel::Response { seq, status, bytes, duration_ms, error } => response_detail(
            seq,
            status,
            bytes,
            duration_ms,
            error,
        ),
        EventKindModel::PolicyVerdict { subject, reason } => "refused "@ + escape(subject) + " — "@
            + escape(reason),
        EventKindModel::Control { holder, note } => "control → "@ + escape(holder) + dash_note(note),
        EventKindModel::Helper { name, argv, status, note } => helper_detail(name, argv, status, note),
        EventKindModel::Unknown { kind, fields } => unknown_detail(kind, fields),
    }
}

fn dash_note_text(out: &mut String, note: &Option<String>)
    ensures
        final(out)@ == old(out)@ + dash_note(crate::model::opt_view(*note)),
{
    let ghost start = out@;
    if let Some(n) = note {
        out.append(" — ");
        out.append(esc(n.as_str()).as_str());
    }
    assert(out@ =~= start + dash_note(crate::model::opt_view(*note)));
}

fn render_field_items(out: &mut String, fields: &Vec<(String, Json)>)
    ensures
        final(out)@ == old(out)@ + field_items_html(crate::json::members_view(fields@)),
{
    let ghost fv = crate::json::members_view(fields@);
    proof {
        crate::json::lemma_members_view(fields@);
    }
    let ghost start = out@;
    let mut i: usize = 0;
    assert(fv.take(0) =~= Seq::<(Seq<char>, JsonModel)>::empty());
    assert(start =~= start + field_items_html(fv.take(0)));
    while i < fields.len()
        invariant
            i <= fields.len(),
            fv == crate::json::members_view(fields@),
            fv.len() == fields.len(),
            forall|t: int| 0 <= t < fields.len() ==> #[trigger] fv[t] == (fields@[t].0@, fields@[t].1@),
            out@ == start + field_items_html(fv.take(i as int)),
        decreases fields.len() - i,
    {
        assert(fv.take(i + 1).drop_last() =~= fv.take(i as int));
        let ghost before = out@;
        out.append("<li><code>");
        out.append(esc(fields[i].0.as_str()).as_str());
        out.append("</code>: ");
        let shown = value_preview(&fields[i].1);
        out.append(esc(shown.as_str()).as_str());
        out.append("</li>");
        assert(out@ =~= before + field_item_html(fv[i as int]));
        assert(out@ =~= start + field_items_html(fv.take(i + 1)));
        i = i + 1;
    }
    assert(fv.take(i as int) =~= fv);
}

fn render_request_detail(
    out: &mut String,
    seq: u64,
    method: &String,
    url: &String,
    initiator: &String,
    allowed: bool,
    denied_reason: &Option<String>,
)
    ensures
        final(out)@ == old(out)@ + request_detail(
            seq,
            method@,
            url@,
            initiator@,
            allowed,
            crate::model::opt_view(*denied_reason),
        ),
{
    let ghost start = out@;
    let mut number = String::from_str("#");
    number.append(decimal_text(seq).as_str());
    number.append(" ");
    out.append(esc(number.as_str()).as_str());
    out.append(esc(method.as_str()).as_str());
    out.append(" ");
    out.append(esc(url.as_str()).as_str());
    out.append(" <span class=\"initiator\">");
    out.append(esc(initiator.as_str()).as_str());
    out.append("</span> ");
    if allowed {
        out.append("<span class=\"badge allowed\">Allowed</span>");
    } else {
        out.append("<span class=\"badge denied\">Denied</span>");
        dash_note_text(out, denied_reason);
    }
    assert(out@ =~= start + request_detail(
        seq,
        method@,
        url@,
        initiator@,
        allowed,
        crate::model::opt_view(*denied_reason),
    ));
}

fn render_response_detail(
    out: &mut String,
    seq: u64,
    status: Option<u16>,
    bytes: Option<u64>,
    duration_ms: Option<u64>,
    error: &Option<String>,
)
    ensures
        final(out)@ == old(out)@ + response_detail(
            seq,
            status,
            bytes,
            duration_ms,
            crate::model::opt_view(*error),
        ),
{
    let ghost start = out@;
    let ghost ev = crate::model::opt_view(*error);
    let mut number = String::from_str("#");
    number.append(decimal_text(seq).as_str());
    out.append(esc(number.as_str()).as_str());
    let ghost mut acc = escape("#"@ + decimal(seq as nat));
    assert(out@ == start + acc);
    let ghost before = out@;
    if let Some(st) = status {
        let mut t = String::from_str(" status ");
        t.append(decimal_text(st as u64).as_str());
        out.append(esc(t.as_str()).as_str());
    }
    proof {
        let piece = match status {
            Some(st) => escape(" status "@ + decimal(st as nat)),
            None => Seq::<char>::empty(),
        };
        assert(out@ =~= before + piece);
        lemma_extend(start, acc, piece);
        acc = acc + piece;
    }
    let ghost before = out@;
    if let Some(b) = bytes {
        let mut t = String::from_str(" · ");
        t.append(decimal_text(b).as_str());
        t.append(" bytes");
        out.append(esc(t.as_str()).as_str());
    }
    proof {
        let piece = match bytes {
            Some(b) => escape(" · "@ + decimal(b as nat) + " bytes"@),
            None => Seq::<char>::empty(),
        };
        assert(out@ =~= before + piece);
        lemma_extend(start, acc, piece);
        acc = acc + piece;
    }
    let ghost before = out@;
    if let Some(ms) = duration_ms {
        let mut t = String::from_str(" · ");
        t.append(decimal_text(ms).as_str());
        t.append(" ms");
        out.append(esc(t.as_str()).as_str());
    }
    proof {
        let piece = match duration_ms {
            Some(ms) => escape(" · "@ + decimal(ms as nat) + " ms"@),
            None => Seq::<char>::empty(),
        };
        assert(out@ =~= before + piece);
        lemma_extend(start, acc, piece);
        acc = acc + piece;
    }
    let ghost before = out@;
    if let Some(e) = error {
        out.append(" · error ");
        out.append(esc(e.as_str()).as_str());
    }
    proof {
        let piece = match ev {
            Some(e) => " · error "@ + escape(e),
            None => Seq::<char>::empty(),
        };
        assert(out@ =~= before + piece);
        lemma_extend(start, acc, piece);
        acc = acc + piece;
    }
    let ghost before = out@;
    if status.is_none() && error.is_none() {
        out.append(" · no response");
    }
    proof {
        let piece = if status is None && ev is None {
            " · no response"@
        } else {
            Seq::<char>::empty()
        };
        assert(out@ =~= before + piece);
        lemma_extend(start, acc, piece);
        acc = acc + piece;
        assert(acc == response_detail(seq, status, bytes, duration_ms, ev));
    }
}

fn render_helper_detail(
    out: &mut String,
    name: &String,
    argv: &Vec<String>,
    status: Option<i32>,
    note: &Option<String>,
)
    ensures
        final(out)@ == old(out)@ + helper_detail(
            name@,
            crate::model::strings_view(argv@),
            status,
            crate::model::opt_view(*note),
        ),
{
    let ghost start = out@;
    out.append("helper ");
    out.append(esc(name.as_str()).as_str());
    out.append(" ");
    let joined = join_strings(argv, " ");
    out.append(esc(joined.as_str()).as_str());
    let ghost p1 = out@;
    if let Some(st) = status {
        let mut t = String::from_str(" (exit ");
        t.append(signed_decimal_text(st as i64).as_str());
        t.append(")");
        out.append(esc(t.as_str()).as_str());
    }
    let ghost p2 = out@;
    dash_note_text(out, note);
    assert(p2 =~= p1 + match status {
        Some(st) => escape(" (exit "@ + signed_decimal(st as int) + ")"@),
        None => Seq::<char>::empty(),
    });
    assert(out@ =~= start + helper_detail(
        name@,
        crate::model::strings_view(argv@),
        status,
        crate::model::opt_view(*note),
    ));
}

fn render_unknown_detail(out: &mut String, kind: &String, fields: &Vec<(String, Json)>)
    ensures
        final(out)@ == old(out)@ + unknown_detail(kind@, crate::json::members_view(fields@)),
{
    let ghost start = out@;
    out.append("unsupported kind ");
    out.append(esc(kind.as_str()).as_str());
    proof {
        crate::json::lemma_members_view(fields@);
    }
    if fields.len() > 0 {
        out.append("<ul class=\"unknown-fields\">");
        render_field_items(out, fields);
        out.append("</ul>");
    }
    assert(out@ =~= start + unknown_detail(kind@, crate::json::members_view(fields@)));
}

fn render_kind_detail(out: &mut String, kind: &EventKind)
    ensures
        final(out)@ == old(out)@ + detail_html(kind@),
{
    let ghost start = out@;
    match kind {
        EventKind::Lifecycle { state, reason } => {
            out.append("state ");
            out.append(esc(state.as_str()).as_str());
            dash_note_text(out, reason);
            assert(out@ =~= start + detail_html(kind@));
        },
        EventKind::AgentAction { action, forwarded } => {
            out.append(
                if *forwarded {
                    "verb "
                } else {
                    "verb ! "
                },
            );
            out.append(esc(action.as_str()).as_str());
            assert(out@ =~= start + detail_html(kind@));
        },
        EventKind::Request { seq, method, url, initiator, allowed, denied_reason } => {
            render_request_detail(out, *seq, method, url, initiator, *allowed, denied_reason);
        },
        EventKind::Response { seq, status, bytes, duration_ms, error } => {
            render_response_detail(out, *seq, *status, *bytes, *duration_ms, error);
        },
        EventKind::PolicyVerdict { subject, reason } => {
            out.append("refused ");
            out.append(esc(subject.as_str()).as_str());
            out.append(" — ");
            out.append(esc(reason.as_str()).as_str());
            assert(out@ =~= start + detail_html(kind@));
        },
        EventKind::Control { holder, note } => {
            out.append("control → ");
            out.append(esc(holder.as_str()).as_str());
            dash_note_text(out, note);
            assert(out@ =~= start + detail_html(kind@));
        },
        EventKind::Helper { name, argv, status, note } => {
            render_helper_detail(out, name, argv, *status, note);
        },
        EventKind::Unknown { kind: name, fields } => {
            render_unknown_detail(out, name, fields);
        },
    }
}

pub open spec fn decision(k: EventKindModel) -> Seq<char> {
    match k {
        EventKindModel::Request { allowed, .. } => if allowed {
            "allowed"@
        } else {
            "denied"@
        },
        _ => Seq::empty(),
    }
}

pub open spec fn decision_class(k: EventKindModel) -> Seq<char> {
    match k {
        EventKindModel::Request { allowed, .. } => if allowed {
            " decision-allowed"@
        } else {
            " decision-denied"@
        },
        _ => Seq::empty(),
    }
}

pub open spec fn event_open_html(e: EventModel) -> Seq<char> {
    "<li class=\"event"@ + decision_class(e.kind) + "\" data-event data-kind=\""@ + escape(
        spec_kind_name(e.kind),
    ) + "\" data-decision=\""@ + decision(e.kind) + "\">\n"@
}

pub open spec fn caused_html(c: Option<u64>) -> Seq<char> {
    match c {
        Some(n) => " <span class=\"caused\">caused by #"@ + escape(decimal(n as nat)) + "</span>"@,
        None => Seq::empty(),
    }
}

pub open spec fn claimed_html(c: Option<Seq<char>>) -> Seq<char> {
    match c {
        Some(t) => " <span class=\"claimed\">claimed "@ + escape(t) + "</span>"@,
        None => Seq::empty(),
    }
}

pub open spec fn meta_html(e: EventModel) -> Seq<char> {
    "<div class=\"meta\">"@ + "<span class=\"eid\">#"@ + escape(decimal(e.id as nat)) + "</span> "@
        + "<time>"@ + escape(e.observed_at) + "</time> "@ + "<span class=\"lane "@
        + spec_event_lane_class(e.lane) + "\">"@ + escape(spec_event_lane_label(e.lane)) + "</span> "@
        + "<span class=\"grade\">"@ + escape(spec_grade_label(e.grade)) + "</span> "@
        + "<span class=\"kind\">"@ + escape(spec_kind_name(e.kind)) + "</span>"@ + caused_html(
        e.caused_by,
    ) + claimed_html(e.claimed_at) + "</div>\n"@
}

/// One entry of the timeline.
#[verifier::opaque]
pub open spec fn event_html(e: EventModel) -> Seq<char> {
    event_open_html(e) + meta_html(e) + "<div class=\"detail\">"@ + detail_html(e.kind)
        + "</div>\n</li>\n"@
}

/// The timeline entries of `es`, in order.
pub open spec fn events_html(es: Seq<EventModel>) -> Seq<char>
    decreases es.len(),
{
    if es.len() == 0 {
        Seq::empty()
    } else {
        events_html(es.drop_last()) + event_html(es.last())
    }
}

pub open spec fn timeline_html(es: Seq<EventModel>) -> Seq<char> {
    "<ol class=\"timeline\" id=\"timeline\">\n"@ + events_html(es) + "</ol>\n</section>\n"@
}

fn render_event_open(out: &mut String, event: &Event)
    ensures
        final(out)@ == old(out)@ + event_open_html(event@),
{
    let ghost start = out@;
    let kind = kind_name(&event.kind);
    let (decision, decision_class) = match &event.kind {
        EventKind::Request { allowed: true, .. } => ("allowed", " decision-allowed"),
        EventKind::Request { allowed: false, .. } => ("denied", " decision-denied"),
        _ => ("", ""),
    };
    proof {
        reveal_strlit("");
    }
    out.append("<li class=\"event");
    out.append(decision_class);
    out.append("\" data-event data-kind=\"");
    out.append(esc(kind).as_str());
    out.append("\" data-decision=\"");
    out.append(decision);
    out.append("\">\n");
    assert(out@ =~= start + event_open_html(event@));
}

fn render_meta(out: &mut String, event: &Event)
    ensures
        final(out)@ == old(out)@ + meta_html(event@),
{
    let ghost start = out@;
    let ghost em = event@;
    out.append("<div class=\"meta\">");
    let ghost mut acc = "<div class=\"meta\">"@;
    out.append("<span class=\"eid\">#");
    proof {
        lemma_extend(start, acc, "<span class=\"eid\">#"@);
        acc = acc + "<span class=\"eid\">#"@;
    }
    out.append(esc(decimal_text(event.id).as_str()).as_str());
    proof {
        lemma_extend(start, acc, escape(decimal(em.id as nat)));
        acc = acc + escape(decimal(em.id as nat));
    }
    out.append("</span> ");
    proof {
        lemma_extend(start, acc, "</span> "@);
        acc = acc + "</span> "@;
    }
    out.append("<time>");
    proof {
        lemma_extend(start, acc, "<time>"@);
        acc = acc + "<time>"@;
    }
    out.append(esc(event.observed_at.as_str()).as_str());
    proof {
        lemma_extend(start, acc, escape(em.observed_at));
        acc = acc + escape(em.observed_at);
    }
    out.append("</time> ");
    proof {
        lemma_extend(start, acc, "</time> "@);
        acc = acc + "</time> "@;
    }
    out.append("<span class=\"lane ");
    proof {
        lemma_extend(start, acc, "<span class=\"lane "@);
        acc = acc + "<span class=\"lane "@;
    }
    out.append(event_lane_class(&event.lane));
    proof {
        lemma_extend(start, acc, spec_event_lane_class(em.lane));
        acc = acc + spec_event_lane_class(em.lane);
    }
    out.append("\">");
    proof {
        lemma_extend(start, acc, "\">"@);
        acc = acc + "\">"@;
    }
    out.append(esc(event_lane_label(&event.lane)).as_str());
    proof {
        lemma_extend(start, acc, escape(spec_event_lane_label(em.lane)));
        acc = acc + escape(spec_event_lane_label(em.lane));
    }
    out.append("</span> ");
    proof {
        lemma_extend(start, acc, "</span> "@);
        acc = acc + "</span> "@;
    }
    out.append("<span class=\"grade\">");
    proof {
        lemma_extend(start, acc, "<span class=\"grade\">"@);
        acc = acc + "<span class=\"grade\">"@;
    }
    out.append(esc(grade_label(&event.grade)).as_str());
    proof {
        lemma_extend(start, acc, escape(spec_grade_label(em.grade)));
        acc = acc + escape(spec_grade_label(em.grade));
    }
    out.append("</span> ");
    proof {
        lemma_extend(start, acc, "</span> "@);
        acc = acc + "</span> "@;
    }
    out.append("<span class=\"kind\">");
    proof {
        lemma_extend(start, acc, "<span class=\"kind\">"@);
        acc = acc + "<span class=\"kind\">"@;
    }
    out.append(esc(kind_name(&event.kind)).as_str());
    proof {
        lemma_extend(start, acc, escape(spec_kind_name(em.kind)));
        acc = acc + escape(spec_kind_name(em.kind));
    }
    out.append("</span>");
    proof {
        lemma_extend(start, acc, "</span>"@);
        acc = acc + "</span>"@;
    }
    let ghost before = out@;
    if let Some(caused_by) = event.caused_by {
        out.append(" <span class=\"caused\">caused by #");
        out.append(esc(decimal_text(caused_by).as_str()).as_str());
        out.append("</span>");
    }
    proof {
        let piece = caused_html(em.caused_by);
        assert(out@ =~= before + piece);
        lemma_extend(start, acc, piece);
        acc = acc + piece;
    }
    let ghost before = out@;
    if let Some(claimed_at) = &event.claimed_at {
        out.append(" <span class=\"claimed\">claimed ");
        out.append(esc(claimed_at.as_str()).as_str());
        out.append("</span>");
    }
    proof {
        let piece = claimed_html(em.claimed_at);
        assert(out@ =~= before + piece);
        lemma_extend(start, acc, piece);
        acc = acc + piece;
    }
    out.append("</div>\n");
    proof {
        lemma_extend(start, acc, "</div>\n"@);
        acc = acc + "</div>\n"@;
        assert(acc == meta_html(em));
    }
}

fn render_event(out: &mut String, event: &Event)
    ensures
        final(out)@ == old(out)@ + event_html(event@),
{
    let ghost start = out@;
    let ghost em = event@;
    render_event_open(out, event);
    let ghost mut acc = event_open_html(em);
    render_meta(out, event);
    proof {
        lemma_extend(start, acc, meta_html(em));
        acc = acc + meta_html(em);
    }
    out.append("<div class=\"detail\">");
    proof {
        lemma_extend(start, acc, "<div class=\"detail\">"@);
        acc = acc + "<div class=\"detail\">"@;
    }
    render_kind_detail(out, &event.kind);
    proof {
        lemma_extend(start, acc, detail_html(em.kind));
        acc = acc + detail_html(em.kind);
    }
    out.append("</div>\n</li>\n");
    proof {
        lemma_extend(start, acc, "</div>\n</li>\n"@);
        acc = acc + "</div>\n</li>\n"@;
        reveal(event_html);
        assert(acc == event_html(em));
    }
}

fn render_timeline(out: &mut String, audit: &Audit)
    ensures
        final(out)@ == old(out)@ + timeline_html(audit@.events),
{
    let ghost es = audit@.events;
    let ghost start = out@;
    out.append("<ol class=\"timeline\" id=\"timeline\">\n");
    let ghost head = out@;
    let mut i: usize = 0;
    assert(es.take(0) =~= Seq::<EventModel>::empty());
    assert(head =~= head + events_html(es.take(0)));
    while i < audit.events.len()
        invariant
            i <= audit.events.len(),
            es == audit@.events,
            es.len() == audit.events.len(),
            forall|t: int| 0 <= t < es.len() ==> #[trigger] es[t] == audit.events@[t]@,
            out@ == head + events_html(es.take(i as int)),
        decreases audit.events.len() - i,
    {
        assert(es.take(i + 1).drop_last() =~= es.take(i as int));
        let ghost before = out@;
        render_event(out, &audit.events[i]);
        assert(out@ =~= head + events_html(es.take(i + 1)));
        i = i + 1;
    }
    assert(es.take(i as int) =~= es);
    out.append("</ol>\n</section>\n");
    assert(out@ =~= start + timeline_html(es));
}

// ---------------------------------------------------------------------------
// The page
// ---------------------------------------------------------------------------
/// The start of the page, up to the title's session id.
pub const PAGE_HEAD: &'static str = "<!DOCTYPE html>\n<html lang=\"en\">\n<head>\n<meta charset=\"utf-8\">\n<meta name=\"viewport\" content=\"width=device-width, initial-scale=1\">\n<title>h5i audit report — ";

/// From the end of the title to the start of the style sheet.
pub const STYLE_OPEN: &'static str = "</title>\n<style>\n";

/// From the end of the style sheet to the page's header.
pub const STYLE_CLOSE: &'static str = "\n</style>\n</head>\n<body>\n";

pub const PAGE_HEADER: &'static str = "<header>\n<h1>h5i audit report</h1>\n</header>\n";

pub const SCRIPT_OPEN: &'static str = "<script>\n";

/// The end of the page, after the script.
pub const PAGE_TAIL: &'static str = "\n</script>\n</body>\n</html>\n";

/// The embedded style sheet.
pub const CSS: &'static str = r#"
:root {
  --bg: #f7f5f1;
  --ink: #1c1b19;
  --muted: #5c5852;
  --line: #d9d3c8;
  --host: #1f6b4a;
  --box: #8a5a12;
  --deny: #8b1e1e;
  --allow: #1f6b4a;
  --partial: #8a5a12;
  --unavailable: #8b1e1e;
}
* { box-sizing: border-box; }
body {
  margin: 0 auto;
  max-width: 52rem;
  padding: 1.5rem 1.25rem 3rem;
  font: 15px/1.45 "Segoe UI", system-ui, sans-serif;
  color: var(--ink);
  background: var(--bg);
}
h1 { font-size: 1.5rem; margin: 0 0 1rem; }
h2 { font-size: 1.1rem; margin: 1.75rem 0 0.75rem; }
.summary { display: grid; grid-template-columns: 9rem 1fr; gap: 0.35rem 1rem; margin: 0; }
.summary dt { color: var(--muted); }
.summary dd { margin: 0; word-break: break-word; }
.sources, .counts { list-style: none; padding: 0; margin: 0; }
.sources li, .counts li { padding: 0.25rem 0; }
.src-name { font-weight: 600; min-width: 6rem; display: inline-block; }
.avail { font-family: ui-monospace, monospace; font-size: 0.9em; }
.avail-read { color: var(--allow); }
.avail-empty { color: var(--muted); }
.avail-unavailable { color: var(--unavailable); font-weight: 600; }
.avail-partial { color: var(--partial); font-weight: 600; }
.dropped { color: var(--partial); }
.filter-bar { display: flex; flex-wrap: wrap; gap: 1rem; margin-bottom: 0.75rem; }
.timeline { list-style: none; padding: 0; margin: 0; border-top: 1px solid var(--line); }
.event { padding: 0.75rem 0; border-bottom: 1px solid var(--line); }
.meta { color: var(--muted); font-size: 0.85rem; display: flex; flex-wrap: wrap; gap: 0.4rem 0.65rem; }
.eid, .kind { font-family: ui-monospace, monospace; color: var(--ink); }
.lane-host { color: var(--host); font-weight: 600; }
.lane-box { color: var(--box); font-weight: 600; }
.detail { margin-top: 0.35rem; word-break: break-word; }
.badge { font-size: 0.8rem; font-weight: 700; text-transform: uppercase; }
.badge.allowed { color: var(--allow); }
.badge.denied { color: var(--deny); }
.decision-denied .detail { color: var(--deny); }
.initiator { color: var(--muted); font-size: 0.9em; }
.unknown-fields { margin: 0.35rem 0 0; padding-left: 1.2rem; }
"#;

/// The embedded script: the event type and request decision filters.
pub const JS: &'static str = r#"
(function () {
  var typeSel = document.getElementById("filter-type");
  var decSel = document.getElementById("filter-decision");
  if (!typeSel || !decSel) return;
  function apply() {
    var type = typeSel.value;
    var decision = decSel.value;
    var nodes = document.querySelectorAll("[data-event]");
    for (var i = 0; i < nodes.length; i++) {
      var el = nodes[i];
      var kind = el.getAttribute("data-kind") || "";
      var dec = el.getAttribute("data-decision") || "";
      var show = true;
      if (type !== "all" && kind !== type) show = false;
      if (decision !== "all" && dec !== decision) show = false;
      el.hidden = !show;
    }
  }
  typeSel.addEventListener("change", apply);
  decSel.addEventListener("change", apply);
})();
"#;

/// Everything between the page's opening and its closing.
#[verifier::opaque]
pub open spec fn report_middle(a: AuditModel) -> Seq<char> {
    escape(a.session.id) + STYLE_OPEN@ + CSS@ + STYLE_CLOSE@ + PAGE_HEADER@ + session_html(a.session)
        + sources_html(a.sources, a.dropped) + counts_html(a.events) + filters_html(a.events)
        + timeline_html(a.events) + SCRIPT_OPEN@ + JS@
}

/// The whole report for an audit.
pub open spec fn report_html(a: AuditModel) -> Seq<char> {
    PAGE_HEAD@ + report_middle(a) + PAGE_TAIL@
}

/// Renders a complete, self-contained HTML report.
pub fn render_report(audit: &Audit) -> (r: String)
    ensures
        r@ == report_html(audit@),
{
    let ghost am = audit@;
    let mut out = String::new();
    out.append(PAGE_HEAD);
    let ghost start = out@;
    out.append(esc(audit.session.id.as_str()).as_str());
    let ghost mut acc = escape(am.session.id);
    out.append(STYLE_OPEN);
    proof {
        lemma_extend(start, acc, STYLE_OPEN@);
        acc = acc + STYLE_OPEN@;
    }
    out.append(CSS);
    proof {
        lemma_extend(start, acc, CSS@);
        acc = acc + CSS@;
    }
    out.append(STYLE_CLOSE);
    proof {
        lemma_extend(start, acc, STYLE_CLOSE@);
        acc = acc + STYLE_CLOSE@;
    }
    out.append(PAGE_HEADER);
    proof {
        lemma_extend(start, acc, PAGE_HEADER@);
        acc = acc + PAGE_HEADER@;
    }
    render_session(&mut out, audit);
    proof {
        lemma_extend(start, acc, session_html(am.session));
        acc = acc + session_html(am.session);
    }
    render_sources(&mut out, &audit.sources, audit.dropped);
    proof {
        lemma_extend(start, acc, sources_html(am.sources, am.dropped));
        acc = acc + sources_html(am.sources, am.dropped);
    }
    render_counts(&mut out, audit);
    proof {
        lemma_extend(start, acc, counts_html(am.events));
        acc = acc + counts_html(am.events);
    }
    render_filters(&mut out, audit);
    proof {
        lemma_extend(start, acc, filters_html(am.events));
        acc = acc + filters_html(am.events);
    }
    render_timeline(&mut out, audit);
    proof {
        lemma_extend(start, acc, timeline_html(am.events));
        acc = acc + timeline_html(am.events);
    }
    out.append(SCRIPT_OPEN);
    proof {
        lemma_extend(start, acc, SCRIPT_OPEN@);
        acc = acc + SCRIPT_OPEN@;
    }
    out.append(JS);
    proof {
        lemma_extend(start, acc, JS@);
        acc = acc + JS@;
        reveal(report_middle);
        assert(acc == report_middle(am));
        assert(start =~= PAGE_HEAD@);
    }
    out.append(PAGE_TAIL);
    out
}

// ---------------------------------------------------------------------------
// Laws
// ---------------------------------------------------------------------------
/// Every report is one HTML document: it opens with the doctype and closes the `html`
/// element last.
pub proof fn law_report_is_one_document(a: AuditModel)
    ensures
        report_html(a).len() >= 15,
        report_html(a).take(15) == "<!DOCTYPE html>"@,
        report_html(a).skip(report_html(a).len() - 8) == "</html>\n"@,
{
    reveal_strlit("<!DOCTYPE html>");
    reveal_strlit("</html>\n");
    reveal_strlit("<!DOCTYPE html>\n<html lang=\"en\">\n<head>\n<meta charset=\"utf-8\">\n<meta name=\"viewport\" content=\"width=device-width, initial-scale=1\">\n<title>h5i audit report — ");
    reveal_strlit("\n</script>\n</body>\n</html>\n");
    let r = report_html(a);
    let head = PAGE_HEAD@;
    let mid = report_middle(a);
    let tail = PAGE_TAIL@;
    assert(r == head + mid + tail);
    assert(r.take(15) =~= "<!DOCTYPE html>"@) by {
        assert forall|i: int| 0 <= i < 15 implies #[trigger] r[i] == head[i] by {}
    }
    assert(r.skip(r.len() - 8) =~= "</html>\n"@) by {
        assert forall|i: int| 0 <= i < 8 implies #[trigger] r.skip(r.len() - 8)[i] == tail[
            tail.len() - 8 + i
        ] by {}
    }
}

/// The timeline of a list of events is the timeline of its first part followed by that of
/// the rest: events are shown in the audit's order.
pub proof fn law_timeline_keeps_order(a: Seq<EventModel>, b: Seq<EventModel>)
    ensures
        events_html(a + b) == events_html(a) + events_html(b),
    decreases b.len(),
{
    if b.len() == 0 {
        assert(a + b =~= a);
        assert(events_html(a) + events_html(b) =~= events_html(a));
    } else {
        assert((a + b).drop_last() =~= a + b.drop_last());
        assert((a + b).last() == b.last());
        law_timeline_keeps_order(a, b.drop_last());
        lemma_extend(events_html(a), events_html(b.drop_last()), event_html(b.last()));
    }
}

/// The agent action count is the number of agent actions among the events.
pub proof fn law_action_count_counts_actions(es: Seq<EventModel>)
    ensures
        count_actions(es) == es.filter(|e: EventModel| e.kind is AgentAction).len(),
    decreases es.len(),
{
    reveal_with_fuel(Seq::<_>::filter, 1);
    if es.len() > 0 {
        law_action_count_counts_actions(es.drop_last());
    }
}

/// The allowed (denied) request count is the number of allowed (denied) requests among the
/// events.
pub proof fn law_request_counts_count_decisions(es: Seq<EventModel>, allowed: bool)
    ensures
        count_requests(es, allowed) == es.filter(
            |e: EventModel| e.kind is Request && e.kind->Request_allowed == allowed,
        ).len(),
    decreases es.len(),
{
    reveal_with_fuel(Seq::<_>::filter, 1);
    if es.len() > 0 {
        law_request_counts_count_decisions(es.drop_last(), allowed);
    }
}

/// The event type filter offers each kind that occurs, once, and no other.
pub proof fn law_filter_offers_each_kind_once(es: Seq<EventModel>)
    ensures
        distinct_kinds(es).no_duplicates(),
        forall|i: int| 0 <= i < es.len() ==> distinct_kinds(es).contains(spec_kind_name(#[trigger] es[i].kind)),
        forall|k: Seq<char>| #[trigger] distinct_kinds(es).contains(k) ==> exists|i: int|
            0 <= i < es.len() && spec_kind_name(es[i].kind) == k,
    decreases es.len(),
{
    if es.len() > 0 {
        let init = es.drop_last();
        law_filter_offers_each_kind_once(init);
        let seen = distinct_kinds(init);
        let k = spec_kind_name(es.last().kind);
        assert forall|i: int| 0 <= i < es.len() implies distinct_kinds(es).contains(
            spec_kind_name(#[trigger] es[i].kind),
        ) by {
            if i < es.len() - 1 {
                assert(es[i] == init[i]);
                if !seen.contains(k) {
                    let j = choose|j: int| 0 <= j < seen.len() && seen[j] == spec_kind_name(init[i].kind);
                    assert(seen.push(k)[j] == seen[j]);
                }
            } else if !seen.contains(k) {
                assert(seen.push(k)[seen.len() as int] == k);
            }
        }
        assert forall|x: Seq<char>| #[trigger] distinct_kinds(es).contains(x) implies exists|i: int|
            0 <= i < es.len() && spec_kind_name(es[i].kind) == x by {
            if seen.contains(x) {
                let i = choose|i: int| 0 <= i < init.len() && spec_kind_name(init[i].kind) == x;
                assert(es[i] == init[i]);
            } else {
                assert(x == k);
                assert(spec_kind_name(es[es.len() - 1].kind) == x);
            }
        }
    }
}

/// A label read from the audit is shown as the audit wrote it.
pub proof fn law_labels_show_what_was_read(s: Seq<char>)
    ensures
        spec_engine_label(crate::parse::engine_named(s)) == s,
        spec_session_lane_label(crate::parse::session_lane_named(s)) == s,
        spec_state_label(crate::parse::state_named(s)) == s,
        spec_availability_label(crate::parse::availability_named(s)) == s,
        spec_event_lane_label(crate::parse::event_lane_named(s)) == s,
        spec_grade_label(crate::parse::grade_named(s)) == s,
{
}

/// Each availability is styled with a class of its own, so that `unavailable`, `partial`,
/// `empty` and `read` never look alike.
pub proof fn law_availability_classes_differ(a: AvailabilityModel, b: AvailabilityModel)
    requires
        !(a is Unknown && b is Unknown),
        a != b,
    ensures
        spec_availability_class(a) != spec_availability_class(b),
{
    reveal_strlit("avail-read");
    reveal_strlit("avail-empty");
    reveal_strlit("avail-unavailable");
    reveal_strlit("avail-partial");
    reveal_strlit("avail-unknown");
    let ca = spec_availability_class(a);
    let cb = spec_availability_class(b);
    if ca.len() == cb.len() {
        assert(ca[6] != cb[6] || ca[7] != cb[7] || ca[8] != cb[8]);
    }
}

/// The kinds an event can have that this build models.
pub open spec fn modelled_kinds() -> Seq<Seq<char>> {
    seq![
        "lifecycle"@,
        "agent-action"@,
        "request"@,
        "response"@,
        "policy-verdict"@,
        "control"@,
        "helper"@,
    ]
}

/// Reading the kind-specific part of an event keeps the kind: the name shown for it is the
/// `kind` the audit wrote, and it is `Unknown` exactly when this build does not model that
/// kind.
pub proof fn law_event_kind_keeps_its_name(kind: Seq<char>, m: Members)
    requires
        crate::parse::event_kind_of(kind, m) is Ok,
    ensures
        spec_kind_name(crate::parse::event_kind_of(kind, m)->Ok_0) == kind,
        (crate::parse::event_kind_of(kind, m)->Ok_0 is Unknown) <==> !modelled_kinds().contains(kind),
{
    let k = crate::parse::event_kind_of(kind, m)->Ok_0;
    if modelled_kinds().contains(kind) {
        let i = choose|i: int| 0 <= i < modelled_kinds().len() && modelled_kinds()[i] == kind;
        assert(0 <= i < 7);
    } else {
        assert(kind != modelled_kinds()[0]);
        assert(kind != modelled_kinds()[1]);
        assert(kind != modelled_kinds()[2]);
        assert(kind != modelled_kinds()[3]);
        assert(kind != modelled_kinds()[4]);
        assert(kind != modelled_kinds()[5]);
        assert(kind != modelled_kinds()[6]);
    }
    if !(k is Unknown) {
        assert(modelled_kinds().contains(kind)) by {
            if kind == "lifecycle"@ {
                assert(modelled_kinds()[0] == kind);
            } else if kind == "agent-action"@ {
                assert(modelled_kinds()[1] == kind);
            } else if kind == "request"@ {
                assert(modelled_kinds()[2] == kind);
            } else if kind == "response"@ {
                assert(modelled_kinds()[3] == kind);
            } else if kind == "policy-verdict"@ {
                assert(modelled_kinds()[4] == kind);
            } else if kind == "control"@ {
                assert(modelled_kinds()[5] == kind);
            } else {
                assert(modelled_kinds()[6] == kind);
            }
        }
    }
}

/// An event read from the audit is shown with the `kind` the audit wrote for it.
pub proof fn law_event_keeps_its_kind(j: JsonModel)
    requires
        crate::parse::event_of(j) is Ok,
    ensures
        j is Object,
        crate::fields::str_member(j->Object_0, "kind"@) is Ok,
        spec_kind_name(crate::parse::event_of(j)->Ok_0.kind) == crate::fields::str_member(
            j->Object_0,
            "kind"@,
        )->Ok_0,
{
    let m = j->Object_0;
    let kind = crate::fields::str_member(m, "kind"@)->Ok_0;
    law_event_kind_keeps_its_name(kind, m);
}

/// A known availability is styled with the class `avail-` followed by its label.
pub proof fn law_availability_class_names_its_label(a: AvailabilityModel)
    requires
        !(a is Unknown),
    ensures
        spec_availability_class(a) == "avail-"@ + spec_availability_label(a),
{
    reveal_strlit("avail-");
    reveal_strlit("avail-read");
    reveal_strlit("avail-empty");
    reveal_strlit("avail-unavailable");
    reveal_strlit("avail-partial");
    reveal_strlit("read");
    reveal_strlit("empty");
    reveal_strlit("unavailable");
    reveal_strlit("partial");
    assert(spec_availability_class(a) =~= "avail-"@ + spec_availability_label(a));
}

/// Known availabilities are labelled differently: unavailable evidence never reads as empty.
pub proof fn law_availability_labels_differ(a: AvailabilityModel, b: AvailabilityModel)
    requires
        !(a is Unknown),
        !(b is Unknown),
        a != b,
    ensures
        spec_availability_label(a) != spec_availability_label(b),
{
    reveal_strlit("read");
    reveal_strlit("empty");
    reveal_strlit("unavailable");
    reveal_strlit("partial");
    let la = spec_availability_label(a);
    let lb = spec_availability_label(b);
    if la.len() == lb.len() {
        assert(la[0] != lb[0]);
    }
}

} // verus!
