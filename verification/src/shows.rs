//! What every report shows of its audit: the summary counts, each evidence source with its
//! own availability, the session's rows, and the decision badge of each request.
//!
//! Each law is stated over the audit itself: the counts are counted here afresh, and the
//! texts that must occur are written out here.

use crate::model::{AuditModel, AvailabilityModel, EventKindModel, EventModel, SessionModel};
use crate::page::{lemma_report_pieces, occurs_at, report_body};
use crate::render::{
    count_actions, count_requests, counts_html, detail_html, filters_html, report_html,
    session_html, sources_html, timeline_html, CSS, JS, PAGE_HEAD, PAGE_HEADER, PAGE_TAIL,
    SCRIPT_OPEN, STYLE_CLOSE, STYLE_OPEN,
};
use crate::text::{decimal, escape};
use vstd::prelude::*;

verus! {

/// `p` occurs somewhere in `s`.
pub open spec fn shows(s: Seq<char>, p: Seq<char>) -> bool {
    exists|j: int| #[trigger] occurs_at(s, j, p)
}

proof fn lemma_shows_self(p: Seq<char>)
    ensures
        shows(p, p),
{
    assert(p.subrange(0, p.len() as int) =~= p);
    assert(occurs_at(p, 0, p));
}

/// What `m` shows, `x + m` shows too.
proof fn lemma_shows_after(x: Seq<char>, m: Seq<char>, p: Seq<char>)
    requires
        shows(m, p),
    ensures
        shows(x + m, p),
{
    let j = choose|j: int| occurs_at(m, j, p);
    let s = x + m;
    assert(s.subrange(x.len() + j, x.len() + j + p.len()) =~= m.subrange(j, j + p.len()));
    assert(occurs_at(s, x.len() + j, p));
}

/// What `m` shows, `m + y` shows too.
proof fn lemma_shows_before(m: Seq<char>, y: Seq<char>, p: Seq<char>)
    requires
        shows(m, p),
    ensures
        shows(m + y, p),
{
    let j = choose|j: int| occurs_at(m, j, p);
    let s = m + y;
    assert(s.subrange(j, j + p.len()) =~= m.subrange(j, j + p.len()));
    assert(occurs_at(s, j, p));
}

/// What the body of a report shows, the report shows.
proof fn lemma_report_shows_body(a: AuditModel, p: Seq<char>)
    requires
        shows(report_body(a), p),
    ensures
        shows(report_html(a), p),
{
    lemma_report_pieces(a);
    let head = PAGE_HEAD@ + escape(a.session.id) + STYLE_OPEN@;
    let body = report_body(a);
    lemma_shows_after(head, body, p);
    lemma_shows_before(head + body, SCRIPT_OPEN@, p);
    lemma_shows_before(head + body + SCRIPT_OPEN@, JS@, p);
    lemma_shows_before(head + body + SCRIPT_OPEN@ + JS@, PAGE_TAIL@, p);
}

/// What the session summary shows, the report shows.
proof fn lemma_report_shows_session(a: AuditModel, p: Seq<char>)
    requires
        shows(session_html(a.session), p),
    ensures
        shows(report_html(a), p),
{
    reveal(report_body);
    let x = CSS@ + STYLE_CLOSE@ + PAGE_HEADER@;
    let s1 = x + session_html(a.session);
    let s2 = s1 + sources_html(a.sources, a.dropped);
    let s3 = s2 + counts_html(a.events);
    let s4 = s3 + filters_html(a.events);
    lemma_shows_after(x, session_html(a.session), p);
    lemma_shows_before(s1, sources_html(a.sources, a.dropped), p);
    lemma_shows_before(s2, counts_html(a.events), p);
    lemma_shows_before(s3, filters_html(a.events), p);
    lemma_shows_before(s4, timeline_html(a.events), p);
    lemma_report_shows_body(a, p);
}

/// What the evidence sources show, the report shows.
proof fn lemma_report_shows_sources(a: AuditModel, p: Seq<char>)
    requires
        shows(sources_html(a.sources, a.dropped), p),
    ensures
        shows(report_html(a), p),
{
    reveal(report_body);
    let s1 = CSS@ + STYLE_CLOSE@ + PAGE_HEADER@ + session_html(a.session);
    let s2 = s1 + sources_html(a.sources, a.dropped);
    let s3 = s2 + counts_html(a.events);
    let s4 = s3 + filters_html(a.events);
    lemma_shows_after(s1, sources_html(a.sources, a.dropped), p);
    lemma_shows_before(s2, counts_html(a.events), p);
    lemma_shows_before(s3, filters_html(a.events), p);
    lemma_shows_before(s4, timeline_html(a.events), p);
    lemma_report_shows_body(a, p);
}

/// What the summary counts show, the report shows.
proof fn lemma_report_shows_counts(a: AuditModel, p: Seq<char>)
    requires
        shows(counts_html(a.events), p),
    ensures
        shows(report_html(a), p),
{
    reveal(report_body);
    let s2 = CSS@ + STYLE_CLOSE@ + PAGE_HEADER@ + session_html(a.session) + sources_html(
        a.sources,
        a.dropped,
    );
    let s3 = s2 + counts_html(a.events);
    let s4 = s3 + filters_html(a.events);
    lemma_shows_after(s2, counts_html(a.events), p);
    lemma_shows_before(s3, filters_html(a.events), p);
    lemma_shows_before(s4, timeline_html(a.events), p);
    lemma_report_shows_body(a, p);
}

/// A run of three pieces in a left-nested concatenation is shown by it.
proof fn lemma_shows_run(x: Seq<char>, p1: Seq<char>, p2: Seq<char>, p3: Seq<char>)
    ensures
        shows(x + p1 + p2 + p3, p1 + p2 + p3),
{
    lemma_shows_self(p1 + p2 + p3);
    lemma_shows_after(x, p1 + p2 + p3, p1 + p2 + p3);
    vstd::seq_lib::lemma_concat_associative(x, p1 + p2, p3);
    vstd::seq_lib::lemma_concat_associative(x, p1, p2);
}

// ---------------------------------------------------------------------------
// Summary counts
// ---------------------------------------------------------------------------
/// An event that is an agent action.
pub open spec fn is_agent_action(e: EventModel) -> bool {
    e.kind is AgentAction
}

/// An event that is a request with the decision `allowed`.
pub open spec fn is_request_decided(allowed: bool) -> spec_fn(EventModel) -> bool {
    |e: EventModel| e.kind is Request && e.kind->Request_allowed == allowed
}

/// How many of `es` are agent actions.
pub open spec fn agent_actions(es: Seq<EventModel>) -> nat {
    es.filter(|e: EventModel| is_agent_action(e)).len()
}

/// How many of `es` are requests with the decision `allowed`.
pub open spec fn requests_decided(es: Seq<EventModel>, allowed: bool) -> nat {
    es.filter(is_request_decided(allowed)).len()
}

proof fn lemma_counts_are_filters(es: Seq<EventModel>)
    ensures
        count_actions(es) == agent_actions(es),
        count_requests(es, true) == requests_decided(es, true),
        count_requests(es, false) == requests_decided(es, false),
    decreases es.len(),
{
    reveal(Seq::filter);
    if es.len() > 0 {
        lemma_counts_are_filters(es.drop_last());
    }
}

/// The summary shows, after "Agent actions", the number of agent actions among the events;
/// after "Allowed requests", the number of requests that were allowed; and after "Denied
/// requests", the number of requests that were denied.
pub proof fn law_report_counts_events(a: AuditModel)
    ensures
        shows(
            report_html(a),
            "<li>Agent actions: <strong>"@ + decimal(agent_actions(a.events)) + "</strong></li>\n"@,
        ),
        shows(
            report_html(a),
            "<li>Allowed requests: <strong>"@ + decimal(requests_decided(a.events, true))
                + "</strong></li>\n"@,
        ),
        shows(
            report_html(a),
            "<li>Denied requests: <strong>"@ + decimal(requests_decided(a.events, false))
                + "</strong></li>\n"@,
        ),
{
    let es = a.events;
    lemma_counts_are_filters(es);
    let h = "<section>\n<h2>Summary</h2>\n<ul class=\"counts\">\n"@;
    let la = "<li>Agent actions: <strong>"@;
    let lb = "<li>Allowed requests: <strong>"@;
    let lc = "<li>Denied requests: <strong>"@;
    let e = "</strong></li>\n"@;
    let da = decimal(count_actions(es));
    let db = decimal(count_requests(es, true));
    let dc = decimal(count_requests(es, false));
    let t = "</ul>\n</section>\n"@;
    let c3 = h + la + da + e;
    let c6 = c3 + lb + db + e;
    let c9 = c6 + lc + dc + e;
    assert(counts_html(es) == c9 + t);
    lemma_shows_run(h, la, da, e);
    lemma_shows_before(c3, lb, la + da + e);
    lemma_shows_before(c3 + lb, db, la + da + e);
    lemma_shows_before(c3 + lb + db, e, la + da + e);
    lemma_shows_before(c6, lc, la + da + e);
    lemma_shows_before(c6 + lc, dc, la + da + e);
    lemma_shows_before(c6 + lc + dc, e, la + da + e);
    lemma_shows_before(c9, t, la + da + e);
    lemma_report_shows_counts(a, la + da + e);
    lemma_shows_run(c3, lb, db, e);
    lemma_shows_before(c6, lc, lb + db + e);
    lemma_shows_before(c6 + lc, dc, lb + db + e);
    lemma_shows_before(c6 + lc + dc, e, lb + db + e);
    lemma_shows_before(c9, t, lb + db + e);
    lemma_report_shows_counts(a, lb + db + e);
    lemma_shows_run(c6, lc, dc, e);
    lemma_shows_before(c9, t, lc + dc + e);
    lemma_report_shows_counts(a, lc + dc + e);
}


// ---------------------------------------------------------------------------
// Evidence sources
// ---------------------------------------------------------------------------
/// How an availability reads.
pub open spec fn availability_word(a: AvailabilityModel) -> Seq<char> {
    match a {
        AvailabilityModel::Read => "read"@,
        AvailabilityModel::Empty => "empty"@,
        AvailabilityModel::Unavailable => "unavailable"@,
        AvailabilityModel::Partial => "partial"@,
        AvailabilityModel::Unknown(s) => s,
    }
}

/// The style class of an availability: `avail-` and its word for the known values.
pub open spec fn availability_style(a: AvailabilityModel) -> Seq<char> {
    match a {
        AvailabilityModel::Unknown(_) => "avail-unknown"@,
        _ => "avail-"@ + availability_word(a),
    }
}

/// The line of the evidence sources that names `name` with availability `a`.
pub open spec fn source_line(name: Seq<char>, a: AvailabilityModel) -> Seq<char> {
    "<li><span class=\"src-name\">"@ + escape(name) + "</span> <span class=\"avail "@
        + availability_style(a) + "\">"@ + escape(availability_word(a)) + "</span></li>\n"@
}

proof fn lemma_source_item_is_line(name: Seq<char>, a: AvailabilityModel)
    ensures
        crate::render::source_item_html(name, a) == source_line(name, a),
{
    reveal_strlit("avail-");
    reveal_strlit("read");
    reveal_strlit("empty");
    reveal_strlit("unavailable");
    reveal_strlit("partial");
    reveal_strlit("avail-read");
    reveal_strlit("avail-empty");
    reveal_strlit("avail-unavailable");
    reveal_strlit("avail-partial");
    assert(crate::render::spec_availability_class(a) =~= availability_style(a));
}

/// Each evidence source is listed under its own name with its own availability: its style
/// class and its word.
pub proof fn law_report_lists_each_source(a: AuditModel)
    ensures
        shows(report_html(a), source_line("actions"@, a.sources.actions)),
        shows(report_html(a), source_line("requests"@, a.sources.requests)),
        shows(report_html(a), source_line("control"@, a.sources.control)),
        shows(report_html(a), source_line("helpers"@, a.sources.helpers)),
        shows(report_html(a), source_line("messages"@, a.sources.messages)),
{
    let src = a.sources;
    lemma_source_item_is_line("actions"@, src.actions);
    lemma_source_item_is_line("requests"@, src.requests);
    lemma_source_item_is_line("control"@, src.control);
    lemma_source_item_is_line("helpers"@, src.helpers);
    lemma_source_item_is_line("messages"@, src.messages);
    let h = "<section>\n<h2>Evidence sources</h2>\n<ul class=\"sources\">\n"@;
    let i1 = source_line("actions"@, src.actions);
    let i2 = source_line("requests"@, src.requests);
    let i3 = source_line("control"@, src.control);
    let i4 = source_line("helpers"@, src.helpers);
    let i5 = source_line("messages"@, src.messages);
    let ul = "</ul>\n"@;
    let dr = crate::render::dropped_html(a.dropped);
    let se = "</section>\n"@;
    assert(sources_html(src, a.dropped) == h + i1 + i2 + i3 + i4 + i5 + ul + dr + se);
    lemma_shows_self(i1);
    lemma_shows_after(h, i1, i1);
    lemma_shows_before(h + i1, i2, i1);
    lemma_shows_before(h + i1 + i2, i3, i1);
    lemma_shows_before(h + i1 + i2 + i3, i4, i1);
    lemma_shows_before(h + i1 + i2 + i3 + i4, i5, i1);
    lemma_shows_before(h + i1 + i2 + i3 + i4 + i5, ul, i1);
    lemma_shows_before(h + i1 + i2 + i3 + i4 + i5 + ul, dr, i1);
    lemma_shows_before(h + i1 + i2 + i3 + i4 + i5 + ul + dr, se, i1);
    lemma_report_shows_sources(a, i1);
    lemma_shows_self(i2);
    lemma_shows_after(h + i1, i2, i2);
    lemma_shows_before(h + i1 + i2, i3, i2);
    lemma_shows_before(h + i1 + i2 + i3, i4, i2);
    lemma_shows_before(h + i1 + i2 + i3 + i4, i5, i2);
    lemma_shows_before(h + i1 + i2 + i3 + i4 + i5, ul, i2);
    lemma_shows_before(h + i1 + i2 + i3 + i4 + i5 + ul, dr, i2);
    lemma_shows_before(h + i1 + i2 + i3 + i4 + i5 + ul + dr, se, i2);
    lemma_report_shows_sources(a, i2);
    lemma_shows_self(i3);
    lemma_shows_after(h + i1 + i2, i3, i3);
    lemma_shows_before(h + i1 + i2 + i3, i4, i3);
    lemma_shows_before(h + i1 + i2 + i3 + i4, i5, i3);
    lemma_shows_before(h + i1 + i2 + i3 + i4 + i5, ul, i3);
    lemma_shows_before(h + i1 + i2 + i3 + i4 + i5 + ul, dr, i3);
    lemma_shows_before(h + i1 + i2 + i3 + i4 + i5 + ul + dr, se, i3);
    lemma_report_shows_sources(a, i3);
    lemma_shows_self(i4);
    lemma_shows_after(h + i1 + i2 + i3, i4, i4);
    lemma_shows_before(h + i1 + i2 + i3 + i4, i5, i4);
    lemma_shows_before(h + i1 + i2 + i3 + i4 + i5, ul, i4);
    lemma_shows_before(h + i1 + i2 + i3 + i4 + i5 + ul, dr, i4);
    lemma_shows_before(h + i1 + i2 + i3 + i4 + i5 + ul + dr, se, i4);
    lemma_report_shows_sources(a, i4);
    lemma_shows_self(i5);
    lemma_shows_after(h + i1 + i2 + i3 + i4, i5, i5);
    lemma_shows_before(h + i1 + i2 + i3 + i4 + i5, ul, i5);
    lemma_shows_before(h + i1 + i2 + i3 + i4 + i5 + ul, dr, i5);
    lemma_shows_before(h + i1 + i2 + i3 + i4 + i5 + ul + dr, se, i5);
    lemma_report_shows_sources(a, i5);
}

// ---------------------------------------------------------------------------
// Session
// ---------------------------------------------------------------------------
/// A text, or a dash when there is none.
pub open spec fn dash_or(v: Option<Seq<char>>) -> Seq<char> {
    match v {
        Some(t) => t,
        None => "—"@,
    }
}

/// The row of the session summary labelled `label` that holds `value`, both escaped.
pub open spec fn session_row(label: Seq<char>, value: Seq<char>) -> Seq<char> {
    "<dt>"@ + escape(label) + "</dt><dd>"@ + escape(value) + "</dd>\n"@
}

/// The session summary holds the session's own id, URL, start, end (a dash when it has not
/// ended), end reason (a dash when there is none) and policy digest, each in the row of that
/// label.
pub proof fn law_report_shows_session_rows(a: AuditModel)
    ensures
        shows(report_html(a), session_row("ID"@, a.session.id)),
        shows(report_html(a), session_row("URL"@, a.session.url)),
        shows(report_html(a), session_row("Started"@, a.session.started_at)),
        shows(report_html(a), session_row("Ended"@, dash_or(a.session.ended_at))),
        shows(report_html(a), session_row("End reason"@, dash_or(a.session.end_reason))),
        shows(report_html(a), session_row("Policy digest"@, a.session.policy_digest)),
{
    let s = a.session;
    let h = "<section>\n<h2>Session</h2>\n<dl class=\"summary\">\n"@;
    let r_id = session_row("ID"@, s.id);
    let nm = match s.name {
        Some(n) => crate::render::row_html("Name"@, n),
        None => Seq::empty(),
    };
    let r_url = session_row("URL"@, s.url);
    let r_pl = session_row("Placement"@, crate::render::spec_placement_label(s.placement));
    let r_en = session_row("Engine"@, crate::render::spec_engine_label(s.engine));
    let r_ln = session_row("Session lane"@, crate::render::spec_session_lane_label(s.lane));
    let r_st = session_row("State"@, crate::render::spec_state_label(s.state));
    let r_start = session_row("Started"@, s.started_at);
    let r_end = session_row("Ended"@, dash_or(s.ended_at));
    let r_reason = session_row("End reason"@, dash_or(s.end_reason));
    let r_pol = session_row("Policy digest"@, s.policy_digest);
    let idn = if s.identity.len() > 0 {
        crate::render::row_html("Identity"@, s.identity)
    } else {
        Seq::empty()
    };
    let tl = "</dl>\n</section>\n"@;
    assert(session_html(s) == h + r_id + nm + r_url + r_pl + r_en + r_ln + r_st + r_start + r_end
        + r_reason + r_pol + idn + tl);
    lemma_shows_self(r_id);
    lemma_shows_after(h, r_id, r_id);
    lemma_shows_before(h + r_id, nm, r_id);
    lemma_shows_before(h + r_id + nm, r_url, r_id);
    lemma_shows_before(h + r_id + nm + r_url, r_pl, r_id);
    lemma_shows_before(h + r_id + nm + r_url + r_pl, r_en, r_id);
    lemma_shows_before(h + r_id + nm + r_url + r_pl + r_en, r_ln, r_id);
    lemma_shows_before(h + r_id + nm + r_url + r_pl + r_en + r_ln, r_st, r_id);
    lemma_shows_before(h + r_id + nm + r_url + r_pl + r_en + r_ln + r_st, r_start, r_id);
    lemma_shows_before(h + r_id + nm + r_url + r_pl + r_en + r_ln + r_st + r_start, r_end, r_id);
    lemma_shows_before(h + r_id + nm + r_url + r_pl + r_en + r_ln + r_st + r_start + r_end, r_reason, r_id);
    lemma_shows_before(h + r_id + nm + r_url + r_pl + r_en + r_ln + r_st + r_start + r_end + r_reason, r_pol, r_id);
    lemma_shows_before(h + r_id + nm + r_url + r_pl + r_en + r_ln + r_st + r_start + r_end + r_reason + r_pol, idn, r_id);
    lemma_shows_before(h + r_id + nm + r_url + r_pl + r_en + r_ln + r_st + r_start + r_end + r_reason + r_pol + idn, tl, r_id);
    lemma_report_shows_session(a, r_id);
    lemma_shows_self(r_url);
    lemma_shows_after(h + r_id + nm, r_url, r_url);
    lemma_shows_before(h + r_id + nm + r_url, r_pl, r_url);
    lemma_shows_before(h + r_id + nm + r_url + r_pl, r_en, r_url);
    lemma_shows_before(h + r_id + nm + r_url + r_pl + r_en, r_ln, r_url);
    lemma_shows_before(h + r_id + nm + r_url + r_pl + r_en + r_ln, r_st, r_url);
    lemma_shows_before(h + r_id + nm + r_url + r_pl + r_en + r_ln + r_st, r_start, r_url);
    lemma_shows_before(h + r_id + nm + r_url + r_pl + r_en + r_ln + r_st + r_start, r_end, r_url);
    lemma_shows_before(h + r_id + nm + r_url + r_pl + r_en + r_ln + r_st + r_start + r_end, r_reason, r_url);
    lemma_shows_before(h + r_id + nm + r_url + r_pl + r_en + r_ln + r_st + r_start + r_end + r_reason, r_pol, r_url);
    lemma_shows_before(h + r_id + nm + r_url + r_pl + r_en + r_ln + r_st + r_start + r_end + r_reason + r_pol, idn, r_url);
    lemma_shows_before(h + r_id + nm + r_url + r_pl + r_en + r_ln + r_st + r_start + r_end + r_reason + r_pol + idn, tl, r_url);
    lemma_report_shows_session(a, r_url);
    lemma_shows_self(r_start);
    lemma_shows_after(h + r_id + nm + r_url + r_pl + r_en + r_ln + r_st, r_start, r_start);
    lemma_shows_before(h + r_id + nm + r_url + r_pl + r_en + r_ln + r_st + r_start, r_end, r_start);
    lemma_shows_before(h + r_id + nm + r_url + r_pl + r_en + r_ln + r_st + r_start + r_end, r_reason, r_start);
    lemma_shows_before(h + r_id + nm + r_url + r_pl + r_en + r_ln + r_st + r_start + r_end + r_reason, r_pol, r_start);
    lemma_shows_before(h + r_id + nm + r_url + r_pl + r_en + r_ln + r_st + r_start + r_end + r_reason + r_pol, idn, r_start);
    lemma_shows_before(h + r_id + nm + r_url + r_pl + r_en + r_ln + r_st + r_start + r_end + r_reason + r_pol + idn, tl, r_start);
    lemma_report_shows_session(a, r_start);
    lemma_shows_self(r_end);
    lemma_shows_after(h + r_id + nm + r_url + r_pl + r_en + r_ln + r_st + r_start, r_end, r_end);
    lemma_shows_before(h + r_id + nm + r_url + r_pl + r_en + r_ln + r_st + r_start + r_end, r_reason, r_end);
    lemma_shows_before(h + r_id + nm + r_url + r_pl + r_en + r_ln + r_st + r_start + r_end + r_reason, r_pol, r_end);
    lemma_shows_before(h + r_id + nm + r_url + r_pl + r_en + r_ln + r_st + r_start + r_end + r_reason + r_pol, idn, r_end);
    lemma_shows_before(h + r_id + nm + r_url + r_pl + r_en + r_ln + r_st + r_start + r_end + r_reason + r_pol + idn, tl, r_end);
    lemma_report_shows_session(a, r_end);
    lemma_shows_self(r_reason);
    lemma_shows_after(h + r_id + nm + r_url + r_pl + r_en + r_ln + r_st + r_start + r_end, r_reason, r_reason);
    lemma_shows_before(h + r_id + nm + r_url + r_pl + r_en + r_ln + r_st + r_start + r_end + r_reason, r_pol, r_reason);
    lemma_shows_before(h + r_id + nm + r_url + r_pl + r_en + r_ln + r_st + r_start + r_end + r_reason + r_pol, idn, r_reason);
    lemma_shows_before(h + r_id + nm + r_url + r_pl + r_en + r_ln + r_st + r_start + r_end + r_reason + r_pol + idn, tl, r_reason);
    lemma_report_shows_session(a, r_reason);
    lemma_shows_self(r_pol);
    lemma_shows_after(h + r_id + nm + r_url + r_pl + r_en + r_ln + r_st + r_start + r_end + r_reason, r_pol, r_pol);
    lemma_shows_before(h + r_id + nm + r_url + r_pl + r_en + r_ln + r_st + r_start + r_end + r_reason + r_pol, idn, r_pol);
    lemma_shows_before(h + r_id + nm + r_url + r_pl + r_en + r_ln + r_st + r_start + r_end + r_reason + r_pol + idn, tl, r_pol);
    lemma_report_shows_session(a, r_pol);
}


// ---------------------------------------------------------------------------
// Request decisions
// ---------------------------------------------------------------------------
/// The note that follows a denial: a dash and the escaped reason, when there is one.
pub open spec fn denial_note(reason: Option<Seq<char>>) -> Seq<char> {
    match reason {
        Some(r) => " — "@ + escape(r),
        None => Seq::empty(),
    }
}

/// The timeline entry of a request ends with its decision: the same text, then the badge
/// "Allowed" when the request was allowed, or the badge "Denied" and the reason's note when
/// it was denied. The returned text is what the two have in common.
pub proof fn law_request_detail_badge(
    seq: u64,
    method: Seq<char>,
    url: Seq<char>,
    initiator: Seq<char>,
    reason: Option<Seq<char>>,
) -> (head: Seq<char>)
    ensures
        detail_html(
            EventKindModel::Request { seq, method, url, initiator, allowed: true, denied_reason: reason },
        ) == head + "<span class=\"badge allowed\">Allowed</span>"@,
        detail_html(
            EventKindModel::Request { seq, method, url, initiator, allowed: false, denied_reason: reason },
        ) == head + "<span class=\"badge denied\">Denied</span>"@ + denial_note(reason),
{
    let head = escape("#"@ + decimal(seq as nat) + " "@) + escape(method) + " "@ + escape(url)
        + " <span class=\"initiator\">"@ + escape(initiator) + "</span> "@;
    vstd::seq_lib::lemma_concat_associative(
        head,
        "<span class=\"badge denied\">Denied</span>"@,
        denial_note(reason),
    );
    head
}

} // verus!
