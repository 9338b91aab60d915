//! Parse and validate `h5i browser audit --json` session audits.
//!
//! A session audit is a JSON object; `decode_audit` states, member by member, which
//! documents are audits and what audit each one is, and which message names the first
//! thing wrong with one that is not. Events keep the order of the document.

use crate::fields::{
    bool_member, default_str_member, get_bool, get_default_str, get_opt_i32, get_opt_str,
    get_opt_u16, get_opt_u64, get_str, get_strings, get_u64, lifts, members_without, missing_message,
    missing_msg, opt_i32_member, opt_str_member, opt_u16_member, opt_u64_member, str_member,
    strings_member, type_message, type_msg, u64_member, without, EXPECT_ARRAY, EXPECT_OBJECT,
    EXPECT_OBJECT_OR_NULL,
};
use crate::json::{member, members_view, read_json, serde_json_read, Json, JsonModel};
use crate::model::{
    Audit, AuditModel, Availability, AvailabilityModel, Confinement, ConfinementModel, Engine,
    EngineModel, Event, EventKind, EventKindModel, EventLane, EventLaneModel, EventModel, Grade,
    GradeModel, Members, Placement, PlacementModel, Session, SessionLane, SessionLaneModel,
    SessionModel, Sources, SourcesModel, State, StateModel,
};
use crate::text::text_is;
use vstd::prelude::*;
use vstd::string::*;

verus! {

/// An error met while reading an audit.
#[derive(Debug, Clone, PartialEq, Eq)]
pub struct Error {
    message: String,
}

impl View for Error {
    type V = Seq<char>;

    /// The error's message.
    closed spec fn view(&self) -> Seq<char> {
        self.message@
    }
}

impl Error {
    fn new(message: String) -> (e: Error)
        ensures
            e@ == message@,
    {
        Error { message }
    }

    /// The error's message.
    pub fn message(&self) -> (r: &str)
        ensures
            r@ == self@,
    {
        self.message.as_str()
    }
}

/// The message for a document whose root is an array.
pub const SESSIONLESS_MESSAGE: &'static str =
    "unsupported input: root JSON array looks like `h5i browser audit --json --no-session` (sessionless helper log). h5i-audit-report expects a session audit object from `h5i browser audit --json`";

/// What every message for a document that is not a session audit starts with.
pub const INVALID_AUDIT_PREFIX: &'static str = "invalid session audit: ";

/// What every message for a text that is not JSON starts with.
pub const INVALID_JSON_PREFIX: &'static str = "invalid JSON: ";

/// The problem with a root that is neither an object nor an array.
pub const ROOT_NOT_OBJECT: &'static str = "invalid type: expected a session audit object";

/// The problem with an item of `events` that is not an object.
pub const EVENT_NOT_OBJECT: &'static str =
    "invalid type in field `events`: expected an array of objects";

// ---------------------------------------------------------------------------
// What a document means
// ---------------------------------------------------------------------------
pub open spec fn engine_named(s: Seq<char>) -> EngineModel {
    if s == "h5i-light"@ {
        EngineModel::H5iLight
    } else if s == "chromium"@ {
        EngineModel::Chromium
    } else {
        EngineModel::Unknown(s)
    }
}

pub open spec fn session_lane_named(s: Seq<char>) -> SessionLaneModel {
    if s == "engine-claimed"@ {
        SessionLaneModel::EngineClaimed
    } else if s == "host-observed"@ {
        SessionLaneModel::HostObserved
    } else {
        SessionLaneModel::Unknown(s)
    }
}

pub open spec fn state_named(s: Seq<char>) -> StateModel {
    if s == "live"@ {
        StateModel::Live
    } else if s == "closed"@ {
        StateModel::Closed
    } else if s == "died"@ {
        StateModel::Died
    } else if s == "expired"@ {
        StateModel::Expired
    } else if s == "evicted"@ {
        StateModel::Evicted
    } else {
        StateModel::Unknown(s)
    }
}

pub open spec fn availability_named(s: Seq<char>) -> AvailabilityModel {
    if s == "read"@ {
        AvailabilityModel::Read
    } else if s == "empty"@ {
        AvailabilityModel::Empty
    } else if s == "unavailable"@ {
        AvailabilityModel::Unavailable
    } else if s == "partial"@ {
        AvailabilityModel::Partial
    } else {
        AvailabilityModel::Unknown(s)
    }
}

pub open spec fn event_lane_named(s: Seq<char>) -> EventLaneModel {
    if s == "host-observed"@ {
        EventLaneModel::HostObserved
    } else if s == "box-claimed"@ {
        EventLaneModel::BoxClaimed
    } else {
        EventLaneModel::Unknown(s)
    }
}

pub open spec fn grade_named(s: Seq<char>) -> GradeModel {
    if s == "fail-closed"@ {
        GradeModel::FailClosed
    } else if s == "best-effort"@ {
        GradeModel::BestEffort
    } else {
        GradeModel::Unknown(s)
    }
}

/// A required availability member.
pub open spec fn availability_member(m: Members, key: Seq<char>) -> Result<AvailabilityModel, Seq<char>> {
    match str_member(m, key) {
        Ok(s) => Ok(availability_named(s)),
        Err(e) => Err(e),
    }
}

/// An availability member that is `empty` when absent.
pub open spec fn default_availability_member(m: Members, key: Seq<char>) -> Result<AvailabilityModel, Seq<char>> {
    if member(m, key) is None {
        Ok(AvailabilityModel::Empty)
    } else {
        availability_member(m, key)
    }
}

/// The tag member of `placement` and `confinement`.
pub open spec fn tag_only() -> Seq<Seq<char>> {
    seq!["kind"@]
}

/// The `placement` member.
pub open spec fn placement_member(m: Members) -> Result<PlacementModel, Seq<char>> {
    match member(m, "placement"@) {
        None => Err(missing_msg("placement"@)),
        Some(JsonModel::Object(p)) => match str_member(p, "kind"@) {
            Err(e) => Err(e),
            Ok(kind) => if kind == "host"@ {
                Ok(PlacementModel::Host)
            } else if kind == "box"@ {
                match str_member(p, "name"@) {
                    Ok(name) => Ok(PlacementModel::Box { name }),
                    Err(e) => Err(e),
                }
            } else {
                Ok(PlacementModel::Unknown { kind, fields: without(p, tag_only()) })
            },
        },
        Some(_) => Err(type_msg("placement"@, EXPECT_OBJECT@)),
    }
}

/// The `confinement` member: absent or `null` is `None`.
pub open spec fn confinement_member(m: Members) -> Result<Option<ConfinementModel>, Seq<char>> {
    match member(m, "confinement"@) {
        None => Ok(None),
        Some(JsonModel::Null) => Ok(None),
        Some(JsonModel::Object(c)) => match str_member(c, "kind"@) {
            Err(e) => Err(e),
            Ok(kind) => if kind == "process"@ {
                Ok(Some(ConfinementModel::Process))
            } else if kind == "none"@ {
                match str_member(c, "why"@) {
                    Ok(why) => Ok(Some(ConfinementModel::Unconfined { why })),
                    Err(e) => Err(e),
                }
            } else {
                Ok(Some(ConfinementModel::Unknown { kind, fields: without(c, tag_only()) }))
            },
        },
        Some(_) => Err(type_msg("confinement"@, EXPECT_OBJECT_OR_NULL@)),
    }
}

/// The session, from the members of its object; members are checked in declaration order.
pub open spec fn session_of(m: Members) -> Result<SessionModel, Seq<char>> {
    let id = str_member(m, "id"@);
    let name = opt_str_member(m, "name"@);
    let url = str_member(m, "url"@);
    let placement = placement_member(m);
    let engine = str_member(m, "engine"@);
    let lane = str_member(m, "lane"@);
    let started_at = str_member(m, "started_at"@);
    let ended_at = opt_str_member(m, "ended_at"@);
    let end_reason = opt_str_member(m, "end_reason"@);
    let state = str_member(m, "state"@);
    let policy_digest = str_member(m, "policy_digest"@);
    let identity = default_str_member(m, "identity"@);
    let identity_digest = default_str_member(m, "identity_digest"@);
    let confinement = confinement_member(m);
    let restored_from = opt_str_member(m, "restored_from"@);
    if id is Err {
        Err(id->Err_0)
    } else if name is Err {
        Err(name->Err_0)
    } else if url is Err {
        Err(url->Err_0)
    } else if placement is Err {
        Err(placement->Err_0)
    } else if engine is Err {
        Err(engine->Err_0)
    } else if lane is Err {
        Err(lane->Err_0)
    } else if started_at is Err {
        Err(started_at->Err_0)
    } else if ended_at is Err {
        Err(ended_at->Err_0)
    } else if end_reason is Err {
        Err(end_reason->Err_0)
    } else if state is Err {
        Err(state->Err_0)
    } else if policy_digest is Err {
        Err(policy_digest->Err_0)
    } else if identity is Err {
        Err(identity->Err_0)
    } else if identity_digest is Err {
        Err(identity_digest->Err_0)
    } else if confinement is Err {
        Err(confinement->Err_0)
    } else if restored_from is Err {
        Err(restored_from->Err_0)
    } else {
        Ok(
            SessionModel {
                id: id->Ok_0,
                name: name->Ok_0,
                url: url->Ok_0,
                placement: placement->Ok_0,
                engine: engine_named(engine->Ok_0),
                lane: session_lane_named(lane->Ok_0),
                started_at: started_at->Ok_0,
                ended_at: ended_at->Ok_0,
                end_reason: end_reason->Ok_0,
                state: state_named(state->Ok_0),
                policy_digest: policy_digest->Ok_0,
                identity: identity->Ok_0,
                identity_digest: identity_digest->Ok_0,
                confinement: confinement->Ok_0,
                restored_from: restored_from->Ok_0,
            },
        )
    }
}

/// The evidence sources, from the members of their object.
pub open spec fn sources_of(m: Members) -> Result<SourcesModel, Seq<char>> {
    let actions = availability_member(m, "actions"@);
    let requests = availability_member(m, "requests"@);
    let control = availability_member(m, "control"@);
    let helpers = default_availability_member(m, "helpers"@);
    let messages = default_availability_member(m, "messages"@);
    if actions is Err {
        Err(actions->Err_0)
    } else if requests is Err {
        Err(requests->Err_0)
    } else if control is Err {
        Err(control->Err_0)
    } else if helpers is Err {
        Err(helpers->Err_0)
    } else if messages is Err {
        Err(messages->Err_0)
    } else {
        Ok(
            SourcesModel {
                actions: actions->Ok_0,
                requests: requests->Ok_0,
                control: control->Ok_0,
                helpers: helpers->Ok_0,
                messages: messages->Ok_0,
            },
        )
    }
}

/// The members every event has, whatever its kind.
pub open spec fn envelope_keys() -> Seq<Seq<char>> {
    seq!["id"@, "observed_at"@, "lane"@, "grade"@, "caused_by"@, "claimed_at"@, "kind"@]
}

/// The kind-specific part of an event of kind `kind` with members `m`.
pub open spec fn event_kind_of(kind: Seq<char>, m: Members) -> Result<EventKindModel, Seq<char>> {
    if kind == "lifecycle"@ {
        let state = str_member(m, "state"@);
        let reason = opt_str_member(m, "reason"@);
        if state is Err {
            Err(state->Err_0)
        } else if reason is Err {
            Err(reason->Err_0)
        } else {
            Ok(EventKindModel::Lifecycle { state: state->Ok_0, reason: reason->Ok_0 })
        }
    } else if kind == "agent-action"@ {
        let action = str_member(m, "action"@);
        let forwarded = bool_member(m, "forwarded"@);
        if action is Err {
            Err(action->Err_0)
        } else if forwarded is Err {
            Err(forwarded->Err_0)
        } else {
            Ok(EventKindModel::AgentAction { action: action->Ok_0, forwarded: forwarded->Ok_0 })
        }
    } else if kind == "request"@ {
        let seq = u64_member(m, "seq"@);
        let method = str_member(m, "method"@);
        let url = str_member(m, "url"@);
        let initiator = str_member(m, "initiator"@);
        let allowed = bool_member(m, "allowed"@);
        let denied_reason = opt_str_member(m, "denied_reason"@);
        if seq is Err {
            Err(seq->Err_0)
        } else if method is Err {
            Err(method->Err_0)
        } else if url is Err {
            Err(url->Err_0)
        } else if initiator is Err {
            Err(initiator->Err_0)
        } else if allowed is Err {
            Err(allowed->Err_0)
        } else if denied_reason is Err {
            Err(denied_reason->Err_0)
        } else {
            Ok(
                EventKindModel::Request {
                    seq: seq->Ok_0,
                    method: method->Ok_0,
                    url: url->Ok_0,
                    initiator: initiator->Ok_0,
                    allowed: allowed->Ok_0,
                    denied_reason: denied_reason->Ok_0,
                },
            )
        }
    } else if kind == "response"@ {
        let seq = u64_member(m, "seq"@);
        let status = opt_u16_member(m, "status"@);
        let bytes = opt_u64_member(m, "bytes"@);
        let duration_ms = opt_u64_member(m, "duration_ms"@);
        let error = opt_str_member(m, "error"@);
        if seq is Err {
            Err(seq->Err_0)
        } else if status is Err {
            Err(status->Err_0)
        } else if bytes is Err {
            Err(bytes->Err_0)
        } else if duration_ms is Err {
            Err(duration_ms->Err_0)
        } else if error is Err {
            Err(error->Err_0)
        } else {
            Ok(
                EventKindModel::Response {
                    seq: seq->Ok_0,
                    status: status->Ok_0,
                    bytes: bytes->Ok_0,
                    duration_ms: duration_ms->Ok_0,
                    error: error->Ok_0,
                },
            )
        }
    } else if kind == "policy-verdict"@ {
        let subject = str_member(m, "subject"@);
        let reason = str_member(m, "reason"@);
        if subject is Err {
            Err(subject->Err_0)
        } else if reason is Err {
            Err(reason->Err_0)
        } else {
            Ok(EventKindModel::PolicyVerdict { subject: subject->Ok_0, reason: reason->Ok_0 })
        }
    } else if kind == "control"@ {
        let holder = str_member(m, "holder"@);
        let note = opt_str_member(m, "note"@);
        if holder is Err {
            Err(holder->Err_0)
        } else if note is Err {
            Err(note->Err_0)
        } else {
            Ok(EventKindModel::Control { holder: holder->Ok_0, note: note->Ok_0 })
        }
    } else if kind == "helper"@ {
        let name = str_member(m, "name"@);
        let argv = strings_member(m, "argv"@);
        let status = opt_i32_member(m, "status"@);
        let note = opt_str_member(m, "note"@);
        if name is Err {
            Err(name->Err_0)
        } else if argv is Err {
            Err(argv->Err_0)
        } else if status is Err {
            Err(status->Err_0)
        } else if note is Err {
            Err(note->Err_0)
        } else {
            Ok(
                EventKindModel::Helper {
                    name: name->Ok_0,
                    argv: argv->Ok_0,
                    status: status->Ok_0,
                    note: note->Ok_0,
                },
            )
        }
    } else {
        Ok(EventKindModel::Unknown { kind, fields: without(m, envelope_keys()) })
    }
}

/// One event.
pub open spec fn event_of(j: JsonModel) -> Result<EventModel, Seq<char>> {
    match j {
        JsonModel::Object(m) => {
            let id = u64_member(m, "id"@);
            let observed_at = str_member(m, "observed_at"@);
            let lane = str_member(m, "lane"@);
            let grade = str_member(m, "grade"@);
            let caused_by = opt_u64_member(m, "caused_by"@);
            let claimed_at = opt_str_member(m, "claimed_at"@);
            let kind = str_member(m, "kind"@);
            if id is Err {
                Err(id->Err_0)
            } else if observed_at is Err {
                Err(observed_at->Err_0)
            } else if lane is Err {
                Err(lane->Err_0)
            } else if grade is Err {
                Err(grade->Err_0)
            } else if caused_by is Err {
                Err(caused_by->Err_0)
            } else if claimed_at is Err {
                Err(claimed_at->Err_0)
            } else if kind is Err {
                Err(kind->Err_0)
            } else {
                match event_kind_of(kind->Ok_0, m) {
                    Err(e) => Err(e),
                    Ok(k) => Ok(
                        EventModel {
                            id: id->Ok_0,
                            observed_at: observed_at->Ok_0,
                            lane: event_lane_named(lane->Ok_0),
                            grade: grade_named(grade->Ok_0),
                            caused_by: caused_by->Ok_0,
                            claimed_at: claimed_at->Ok_0,
                            kind: k,
                        },
                    ),
                }
            }
        },
        _ => Err(EVENT_NOT_OBJECT@),
    }
}

/// The events, in order; the first item that is not an event decides the error.
pub open spec fn events_of(items: Seq<JsonModel>) -> Result<Seq<EventModel>, Seq<char>>
    decreases items.len(),
{
    if items.len() == 0 {
        Ok(Seq::empty())
    } else {
        match events_of(items.drop_last()) {
            Err(e) => Err(e),
            Ok(es) => match event_of(items.last()) {
                Err(e) => Err(e),
                Ok(ev) => Ok(es.push(ev)),
            },
        }
    }
}

/// A session audit, from a document; the error is the first problem found.
pub open spec fn decode_audit(j: JsonModel) -> Result<AuditModel, Seq<char>> {
    match j {
        JsonModel::Object(m) => {
            let session = match member(m, "session"@) {
                None => Err(missing_msg("session"@)),
                Some(JsonModel::Object(s)) => session_of(s),
                Some(_) => Err(type_msg("session"@, EXPECT_OBJECT@)),
            };
            let sources = match member(m, "sources"@) {
                None => Err(missing_msg("sources"@)),
                Some(JsonModel::Object(s)) => sources_of(s),
                Some(_) => Err(type_msg("sources"@, EXPECT_OBJECT@)),
            };
            let events = match member(m, "events"@) {
                None => Err(missing_msg("events"@)),
                Some(JsonModel::Array(items)) => events_of(items),
                Some(_) => Err(type_msg("events"@, EXPECT_ARRAY@)),
            };
            let dropped = u64_member(m, "dropped"@);
            if session is Err {
                Err(session->Err_0)
            } else if sources is Err {
                Err(sources->Err_0)
            } else if events is Err {
                Err(events->Err_0)
            } else if dropped is Err {
                Err(dropped->Err_0)
            } else {
                Ok(
                    AuditModel {
                        session: session->Ok_0,
                        sources: sources->Ok_0,
                        events: events->Ok_0,
                        dropped: dropped->Ok_0,
                    },
                )
            }
        },
        _ => Err(ROOT_NOT_OBJECT@),
    }
}

/// What reading a document gives: a root array is the sessionless helper log, which is
/// refused as such; anything else is a session audit or is refused naming its problem.
pub open spec fn audit_outcome(j: JsonModel) -> Result<AuditModel, Seq<char>> {
    if j is Array {
        Err(SESSIONLESS_MESSAGE@)
    } else {
        match decode_audit(j) {
            Ok(a) => Ok(a),
            Err(problem) => Err(INVALID_AUDIT_PREFIX@ + problem),
        }
    }
}

/// What reading a text gives.
pub open spec fn text_outcome(text: Seq<char>) -> Result<AuditModel, Seq<char>> {
    match serde_json_read(text) {
        Err(e) => Err(INVALID_JSON_PREFIX@ + e),
        Ok(j) => audit_outcome(j),
    }
}

/// The model of a result.
pub open spec fn outcome(r: Result<Audit, Error>) -> Result<AuditModel, Seq<char>> {
    match r {
        Ok(a) => Ok(a@),
        Err(e) => Err(e@),
    }
}

// ---------------------------------------------------------------------------
// Reading a document
// ---------------------------------------------------------------------------
fn engine_from(s: String) -> (r: Engine)
    ensures
        r@ == engine_named(s@),
{
    if text_is(&s, "h5i-light") {
        Engine::H5iLight
    } else if text_is(&s, "chromium") {
        Engine::Chromium
    } else {
        Engine::Unknown(s)
    }
}

fn session_lane_from(s: String) -> (r: SessionLane)
    ensures
        r@ == session_lane_named(s@),
{
    if text_is(&s, "engine-claimed") {
        SessionLane::EngineClaimed
    } else if text_is(&s, "host-observed") {
        SessionLane::HostObserved
    } else {
        SessionLane::Unknown(s)
    }
}

fn state_from(s: String) -> (r: State)
    ensures
        r@ == state_named(s@),
{
    if text_is(&s, "live") {
        State::Live
    } else if text_is(&s, "closed") {
        State::Closed
    } else if text_is(&s, "died") {
        State::Died
    } else if text_is(&s, "expired") {
        State::Expired
    } else if text_is(&s, "evicted") {
        State::Evicted
    } else {
        State::Unknown(s)
    }
}

fn availability_from(s: String) -> (r: Availability)
    ensures
        r@ == availability_named(s@),
{
    if text_is(&s, "read") {
        Availability::Read
    } else if text_is(&s, "empty") {
        Availability::Empty
    } else if text_is(&s, "unavailable") {
        Availability::Unavailable
    } else if text_is(&s, "partial") {
        Availability::Partial
    } else {
        Availability::Unknown(s)
    }
}

fn event_lane_from(s: String) -> (r: EventLane)
    ensures
        r@ == event_lane_named(s@),
{
    if text_is(&s, "host-observed") {
        EventLane::HostObserved
    } else if text_is(&s, "box-claimed") {
        EventLane::BoxClaimed
    } else {
        EventLane::Unknown(s)
    }
}

fn grade_from(s: String) -> (r: Grade)
    ensures
        r@ == grade_named(s@),
{
    if text_is(&s, "fail-closed") {
        Grade::FailClosed
    } else if text_is(&s, "best-effort") {
        Grade::BestEffort
    } else {
        Grade::Unknown(s)
    }
}

fn get_availability(m: &Vec<(String, Json)>, key: &str) -> (r: Result<Availability, String>)
    ensures
        lifts(r, availability_member(members_view(m@), key@), |a: Availability| a@),
{
    match get_str(m, key) {
        Ok(s) => Ok(availability_from(s)),
        Err(e) => Err(e),
    }
}

fn get_default_availability(m: &Vec<(String, Json)>, key: &str) -> (r: Result<Availability, String>)
    ensures
        lifts(r, default_availability_member(members_view(m@), key@), |a: Availability| a@),
{
    match crate::json::find_member(m, key) {
        None => Ok(Availability::Empty),
        Some(_) => get_availability(m, key),
    }
}

fn decode_placement(m: &Vec<(String, Json)>) -> (r: Result<Placement, String>)
    ensures
        lifts(r, placement_member(members_view(m@)), |p: Placement| p@),
{
    match crate::json::find_member(m, "placement") {
        None => Err(missing_message("placement")),
        Some(i) => match &m[i].1 {
            Json::Object(p) => {
                let kind = match get_str(p, "kind") {
                    Ok(k) => k,
                    Err(e) => return Err(e),
                };
                if text_is(&kind, "host") {
                    Ok(Placement::Host)
                } else if text_is(&kind, "box") {
                    match get_str(p, "name") {
                        Ok(name) => Ok(Placement::Box { name }),
                        Err(e) => Err(e),
                    }
                } else {
                    let fields = members_without(p, &["kind"]);
                    proof {
                        assert(["kind"]@.map_values(|k: &str| k@) =~= tag_only());
                    }
                    Ok(Placement::Unknown { kind, fields })
                }
            },
            _ => Err(type_message("placement", EXPECT_OBJECT)),
        },
    }
}

/// The model of an optional confinement.
pub open spec fn confinement_view(c: Option<Confinement>) -> Option<ConfinementModel> {
    match c {
        Some(x) => Some(x@),
        None => None,
    }
}

fn decode_confinement(m: &Vec<(String, Json)>) -> (r: Result<Option<Confinement>, String>)
    ensures
        lifts(r, confinement_member(members_view(m@)), |c: Option<Confinement>| confinement_view(c)),
{
    match crate::json::find_member(m, "confinement") {
        None => Ok(None),
        Some(i) => match &m[i].1 {
            Json::Null => Ok(None),
            Json::Object(c) => {
                let kind = match get_str(c, "kind") {
                    Ok(k) => k,
                    Err(e) => return Err(e),
                };
                if text_is(&kind, "process") {
                    Ok(Some(Confinement::Process))
                } else if text_is(&kind, "none") {
                    match get_str(c, "why") {
                        Ok(why) => Ok(Some(Confinement::Unconfined { why })),
                        Err(e) => Err(e),
                    }
                } else {
                    let fields = members_without(c, &["kind"]);
                    proof {
                        assert(["kind"]@.map_values(|k: &str| k@) =~= tag_only());
                    }
                    Ok(Some(Confinement::Unknown { kind, fields }))
                }
            },
            _ => Err(type_message("confinement", EXPECT_OBJECT_OR_NULL)),
        },
    }
}

fn decode_session(m: &Vec<(String, Json)>) -> (r: Result<Session, String>)
    ensures
        lifts(r, session_of(members_view(m@)), |s: Session| s@),
{
    let id = match get_str(m, "id") {
        Ok(v) => v,
        Err(e) => return Err(e),
    };
    let name = match get_opt_str(m, "name") {
        Ok(v) => v,
        Err(e) => return Err(e),
    };
    let url = match get_str(m, "url") {
        Ok(v) => v,
        Err(e) => return Err(e),
    };
    let placement = match decode_placement(m) {
        Ok(v) => v,
        Err(e) => return Err(e),
    };
    let engine = match get_str(m, "engine") {
        Ok(v) => engine_from(v),
        Err(e) => return Err(e),
    };
    let lane = match get_str(m, "lane") {
        Ok(v) => session_lane_from(v),
        Err(e) => return Err(e),
    };
    let started_at = match get_str(m, "started_at") {
        Ok(v) => v,
        Err(e) => return Err(e),
    };
    let ended_at = match get_opt_str(m, "ended_at") {
        Ok(v) => v,
        Err(e) => return Err(e),
    };
    let end_reason = match get_opt_str(m, "end_reason") {
        Ok(v) => v,
        Err(e) => return Err(e),
    };
    let state = match get_str(m, "state") {
        Ok(v) => state_from(v),
        Err(e) => return Err(e),
    };
    let policy_digest = match get_str(m, "policy_digest") {
        Ok(v) => v,
        Err(e) => return Err(e),
    };
    let identity = match get_default_str(m, "identity") {
        Ok(v) => v,
        Err(e) => return Err(e),
    };
    let identity_digest = match get_default_str(m, "identity_digest") {
        Ok(v) => v,
        Err(e) => return Err(e),
    };
    let confinement = match decode_confinement(m) {
        Ok(v) => v,
        Err(e) => return Err(e),
    };
    let restored_from = match get_opt_str(m, "restored_from") {
        Ok(v) => v,
        Err(e) => return Err(e),
    };
    Ok(
        Session {
            id,
            name,
            url,
            placement,
            engine,
            lane,
            started_at,
            ended_at,
            end_reason,
            state,
            policy_digest,
            identity,
            identity_digest,
            confinement,
            restored_from,
        },
    )
}

fn decode_sources(m: &Vec<(String, Json)>) -> (r: Result<Sources, String>)
    ensures
        lifts(r, sources_of(members_view(m@)), |s: Sources| s@),
{
    let actions = match get_availability(m, "actions") {
        Ok(v) => v,
        Err(e) => return Err(e),
    };
    let requests = match get_availability(m, "requests") {
        Ok(v) => v,
        Err(e) => return Err(e),
    };
    let control = match get_availability(m, "control") {
        Ok(v) => v,
        Err(e) => return Err(e),
    };
    let helpers = match get_default_availability(m, "helpers") {
        Ok(v) => v,
        Err(e) => return Err(e),
    };
    let messages = match get_default_availability(m, "messages") {
        Ok(v) => v,
        Err(e) => return Err(e),
    };
    Ok(Sources { actions, requests, control, helpers, messages })
}

fn decode_event_kind(kind: String, m: &Vec<(String, Json)>) -> (r: Result<EventKind, String>)
    ensures
        lifts(r, event_kind_of(kind@, members_view(m@)), |k: EventKind| k@),
{
    if text_is(&kind, "lifecycle") {
        let state = match get_str(m, "state") {
            Ok(v) => v,
            Err(e) => return Err(e),
        };
        let reason = match get_opt_str(m, "reason") {
            Ok(v) => v,
            Err(e) => return Err(e),
        };
        Ok(EventKind::Lifecycle { state, reason })
    } else if text_is(&kind, "agent-action") {
        let action = match get_str(m, "action") {
            Ok(v) => v,
            Err(e) => return Err(e),
        };
        let forwarded = match get_bool(m, "forwarded") {
            Ok(v) => v,
            Err(e) => return Err(e),
        };
        Ok(EventKind::AgentAction { action, forwarded })
    } else if text_is(&kind, "request") {
        let seq = match get_u64(m, "seq") {
            Ok(v) => v,
            Err(e) => return Err(e),
        };
        let method = match get_str(m, "method") {
            Ok(v) => v,
            Err(e) => return Err(e),
        };
        let url = match get_str(m, "url") {
            Ok(v) => v,
            Err(e) => return Err(e),
        };
        let initiator = match get_str(m, "initiator") {
            Ok(v) => v,
            Err(e) => return Err(e),
        };
        let allowed = match get_bool(m, "allowed") {
            Ok(v) => v,
            Err(e) => return Err(e),
        };
        let denied_reason = match get_opt_str(m, "denied_reason") {
            Ok(v) => v,
            Err(e) => return Err(e),
        };
        Ok(EventKind::Request { seq, method, url, initiator, allowed, denied_reason })
    } else if text_is(&kind, "response") {
        let seq = match get_u64(m, "seq") {
            Ok(v) => v,
            Err(e) => return Err(e),
        };
        let status = match get_opt_u16(m, "status") {
            Ok(v) => v,
            Err(e) => return Err(e),
        };
        let bytes = match get_opt_u64(m, "bytes") {
            Ok(v) => v,
            Err(e) => return Err(e),
        };
        let duration_ms = match get_opt_u64(m, "duration_ms") {
            Ok(v) => v,
            Err(e) => return Err(e),
        };
        let error = match get_opt_str(m, "error") {
            Ok(v) => v,
            Err(e) => return Err(e),
        };
        Ok(EventKind::Response { seq, status, bytes, duration_ms, error })
    } else if text_is(&kind, "policy-verdict") {
        let subject = match get_str(m, "subject") {
            Ok(v) => v,
            Err(e) => return Err(e),
        };
        let reason = match get_str(m, "reason") {
            Ok(v) => v,
            Err(e) => return Err(e),
        };
        Ok(EventKind::PolicyVerdict { subject, reason })
    } else if text_is(&kind, "control") {
        let holder = match get_str(m, "holder") {
            Ok(v) => v,
            Err(e) => return Err(e),
        };
        let note = match get_opt_str(m, "note") {
            Ok(v) => v,
            Err(e) => return Err(e),
        };
        Ok(EventKind::Control { holder, note })
    } else if text_is(&kind, "helper") {
        let name = match get_str(m, "name") {
            Ok(v) => v,
            Err(e) => return Err(e),
        };
        let argv = match get_strings(m, "argv") {
            Ok(v) => v,
            Err(e) => return Err(e),
        };
        let status = match get_opt_i32(m, "status") {
            Ok(v) => v,
            Err(e) => return Err(e),
        };
        let note = match get_opt_str(m, "note") {
            Ok(v) => v,
            Err(e) => return Err(e),
        };
        Ok(EventKind::Helper { name, argv, status, note })
    } else {
        let fields = members_without(
            m,
            &["id", "observed_at", "lane", "grade", "caused_by", "claimed_at", "kind"],
        );
        proof {
            assert(["id", "observed_at", "lane", "grade", "caused_by", "claimed_at", "kind"]@.map_values(
                |k: &str| k@,
            ) =~= envelope_keys());
        }
        Ok(EventKind::Unknown { kind, fields })
    }
}

fn decode_event(j: &Json) -> (r: Result<Event, String>)
    ensures
        lifts(r, event_of(j@), |e: Event| e@),
{
    match j {
        Json::Object(m) => {
            let id = match get_u64(m, "id") {
                Ok(v) => v,
                Err(e) => return Err(e),
            };
            let observed_at = match get_str(m, "observed_at") {
                Ok(v) => v,
                Err(e) => return Err(e),
            };
            let lane = match get_str(m, "lane") {
                Ok(v) => event_lane_from(v),
                Err(e) => return Err(e),
            };
            let grade = match get_str(m, "grade") {
                Ok(v) => grade_from(v),
                Err(e) => return Err(e),
            };
            let caused_by = match get_opt_u64(m, "caused_by") {
                Ok(v) => v,
                Err(e) => return Err(e),
            };
            let claimed_at = match get_opt_str(m, "claimed_at") {
                Ok(v) => v,
                Err(e) => return Err(e),
            };
            let kind_name = match get_str(m, "kind") {
                Ok(v) => v,
                Err(e) => return Err(e),
            };
            let kind = match decode_event_kind(kind_name, m) {
                Ok(v) => v,
                Err(e) => return Err(e),
            };
            Ok(Event { id, observed_at, lane, grade, caused_by, claimed_at, kind })
        },
        _ => Err(String::from_str(EVENT_NOT_OBJECT)),
    }
}

/// The model of a list of events.
pub open spec fn events_view(v: Seq<Event>) -> Seq<EventModel> {
    v.map_values(|e: Event| e@)
}

fn decode_events(items: &Vec<Json>) -> (r: Result<Vec<Event>, String>)
    ensures
        lifts(r, events_of(crate::json::items_view(items@)), |v: Vec<Event>| events_view(v@)),
{
    let ghost model = crate::json::items_view(items@);
    proof {
        crate::json::lemma_items_view(items@);
    }
    let mut out: Vec<Event> = Vec::new();
    let mut k: usize = 0;
    assert(model.take(0) =~= Seq::<JsonModel>::empty());
    assert(events_view(out@) =~= Seq::<EventModel>::empty());
    while k < items.len()
        invariant
            k <= items.len(),
            model == crate::json::items_view(items@),
            model.len() == items.len(),
            forall|t: int| 0 <= t < items.len() ==> #[trigger] model[t] == items@[t]@,
            events_of(model.take(k as int)) == Ok::<Seq<EventModel>, Seq<char>>(events_view(out@)),
        decreases items.len() - k,
    {
        assert(model.take(k + 1).drop_last() =~= model.take(k as int));
        assert(model.take(k + 1).last() == items@[k as int]@);
        match decode_event(&items[k]) {
            Ok(ev) => {
                let ghost before = out@;
                assert(event_of(model.take(k + 1).last()) == Ok::<EventModel, Seq<char>>(ev@));
                out.push(ev);
                assert(events_view(out@) =~= events_view(before).push(ev@));
            },
            Err(e) => {
                proof {
                    lemma_events_of_prefix_error(model, k as int + 1);
                }
                return Err(e);
            },
        }
        k = k + 1;
    }
    assert(model.take(items.len() as int) =~= model);
    Ok(out)
}

/// An error among the first `n` items is the error of the whole list.
proof fn lemma_events_of_prefix_error(items: Seq<JsonModel>, n: int)
    requires
        0 <= n <= items.len(),
        events_of(items.take(n)) is Err,
    ensures
        events_of(items) == events_of(items.take(n)),
    decreases items.len() - n,
{
    if n < items.len() {
        assert(items.take(n + 1).drop_last() =~= items.take(n));
        lemma_events_of_prefix_error(items, n + 1);
    } else {
        assert(items.take(n) =~= items);
    }
}

fn decode_audit_value(j: &Json) -> (r: Result<Audit, String>)
    ensures
        lifts(r, decode_audit(j@), |a: Audit| a@),
{
    match j {
        Json::Object(m) => {
            let session = match crate::json::find_member(m, "session") {
                None => return Err(missing_message("session")),
                Some(i) => match &m[i].1 {
                    Json::Object(s) => match decode_session(s) {
                        Ok(v) => v,
                        Err(e) => return Err(e),
                    },
                    _ => return Err(type_message("session", EXPECT_OBJECT)),
                },
            };
            let sources = match crate::json::find_member(m, "sources") {
                None => return Err(missing_message("sources")),
                Some(i) => match &m[i].1 {
                    Json::Object(s) => match decode_sources(s) {
                        Ok(v) => v,
                        Err(e) => return Err(e),
                    },
                    _ => return Err(type_message("sources", EXPECT_OBJECT)),
                },
            };
            let events = match crate::json::find_member(m, "events") {
                None => return Err(missing_message("events")),
                Some(i) => match &m[i].1 {
                    Json::Array(items) => match decode_events(items) {
                        Ok(v) => v,
                        Err(e) => return Err(e),
                    },
                    _ => return Err(type_message("events", EXPECT_ARRAY)),
                },
            };
            let dropped = match get_u64(m, "dropped") {
                Ok(v) => v,
                Err(e) => return Err(e),
            };
            let a = Audit { session, sources, events, dropped };
            assert(a@.events == events_view(a.events@));
            Ok(a)
        },
        _ => Err(String::from_str(ROOT_NOT_OBJECT)),
    }
}

/// Reads a session audit from a JSON document.
///
/// A root array (the sessionless helper log of `h5i browser audit --json --no-session`) is
/// refused with `SESSIONLESS_MESSAGE`; any other document that is not a session audit is
/// refused with a message that starts with `INVALID_AUDIT_PREFIX`. Events keep their order.
pub fn parse_audit_value(value: Json) -> (r: Result<Audit, Error>)
    ensures
        outcome(r) == audit_outcome(value@),
{
    if let Json::Array(_) = &value {
        return Err(Error::new(String::from_str(SESSIONLESS_MESSAGE)));
    }
    match decode_audit_value(&value) {
        Ok(a) => Ok(a),
        Err(problem) => {
            let mut message = String::from_str(INVALID_AUDIT_PREFIX);
            message.append(problem.as_str());
            Err(Error::new(message))
        },
    }
}

/// Reads a session audit from JSON text.
///
/// Text that is not one JSON document is refused with a message that starts with
/// `INVALID_JSON_PREFIX`; a document is read as `parse_audit_value` reads it.
pub fn parse_audit(input: &str) -> (r: Result<Audit, Error>)
    ensures
        outcome(r) == text_outcome(input@),
{
    match read_json(input) {
        Ok(value) => parse_audit_value(value),
        Err(e) => {
            let mut message = String::from_str(INVALID_JSON_PREFIX);
            message.append(e.as_str());
            Err(Error::new(message))
        },
    }
}

// ---------------------------------------------------------------------------
// Laws
// ---------------------------------------------------------------------------
/// A document is refused as the sessionless helper log exactly when its root is an array.
pub proof fn law_sessionless_exactly_for_arrays(j: JsonModel)
    ensures
        (audit_outcome(j) == Err::<AuditModel, Seq<char>>(SESSIONLESS_MESSAGE@)) <==> j is Array,
{
    if !(j is Array) {
        if let Err(problem) = decode_audit(j) {
            reveal_strlit("invalid session audit: ");
            reveal_strlit("unsupported input: root JSON array looks like `h5i browser audit --json --no-session` (sessionless helper log). h5i-audit-report expects a session audit object from `h5i browser audit --json`");
            assert((INVALID_AUDIT_PREFIX@ + problem)[0] == 'i');
            assert(SESSIONLESS_MESSAGE@[0] == 'u');
        }
    }
}

/// Any document that is neither an audit nor a root array is refused naming the problem
/// after `INVALID_AUDIT_PREFIX`.
pub proof fn law_refusals_name_their_problem(j: JsonModel)
    requires
        !(j is Array),
        decode_audit(j) is Err,
    ensures
        audit_outcome(j) == Err::<AuditModel, Seq<char>>(
            INVALID_AUDIT_PREFIX@ + decode_audit(j)->Err_0,
        ),
{
}

/// The events read from a list are its items read one by one, in order.
pub proof fn lemma_events_of(items: Seq<JsonModel>)
    requires
        events_of(items) is Ok,
    ensures
        events_of(items)->Ok_0.len() == items.len(),
        forall|i: int|
            0 <= i < items.len() ==> event_of(#[trigger] items[i]) == Ok::<EventModel, Seq<char>>(
                events_of(items)->Ok_0[i],
            ),
    decreases items.len(),
{
    if items.len() > 0 {
        lemma_events_of(items.drop_last());
        let es = events_of(items)->Ok_0;
        assert forall|i: int| 0 <= i < items.len() implies event_of(#[trigger] items[i]) == Ok::<
            EventModel,
            Seq<char>,
        >(es[i]) by {
            if i < items.len() - 1 {
                assert(items[i] == items.drop_last()[i]);
            }
        }
    }
}

/// Reading keeps the events of the document: one audit event per item of `events`, in the
/// document's order, each the reading of its item.
pub proof fn law_events_keep_document_order(j: JsonModel)
    requires
        audit_outcome(j) is Ok,
    ensures
        ({
            let a = audit_outcome(j)->Ok_0;
            &&& j is Object
            &&& member(j->Object_0, "events"@) is Some
            &&& member(j->Object_0, "events"@)->Some_0 is Array
            &&& a.events.len() == member(j->Object_0, "events"@)->Some_0->Array_0.len()
            &&& forall|i: int|
                0 <= i < a.events.len() ==> event_of(
                    #[trigger] member(j->Object_0, "events"@)->Some_0->Array_0[i],
                ) == Ok::<EventModel, Seq<char>>(a.events[i])
        }),
{
    let m = j->Object_0;
    let items = member(m, "events"@)->Some_0->Array_0;
    lemma_events_of(items);
}

/// Reading a text is reading the document that the JSON reader makes of it.
pub proof fn law_text_reads_as_its_document(text: Seq<char>)
    requires
        serde_json_read(text) is Ok,
    ensures
        text_outcome(text) == audit_outcome(serde_json_read(text)->Ok_0),
{
}

/// `helpers` and `messages` read as `empty` when the audit leaves them out.
pub proof fn law_absent_sources_read_as_empty(m: Members)
    requires
        sources_of(m) is Ok,
    ensures
        member(m, "helpers"@) is None ==> sources_of(m)->Ok_0.helpers == AvailabilityModel::Empty,
        member(m, "messages"@) is None ==> sources_of(m)->Ok_0.messages == AvailabilityModel::Empty,
{
}

/// An event of a kind this build does not model keeps every member outside the envelope,
/// with its value, and none of the envelope's.
pub proof fn law_unknown_kind_keeps_members(kind: Seq<char>, m: Members, key: Seq<char>)
    requires
        event_kind_of(kind, m) is Ok,
        event_kind_of(kind, m)->Ok_0 is Unknown,
    ensures
        !envelope_keys().contains(key) ==> member(
            event_kind_of(kind, m)->Ok_0->Unknown_fields,
            key,
        ) == member(m, key),
        envelope_keys().contains(key) ==> member(
            event_kind_of(kind, m)->Ok_0->Unknown_fields,
            key,
        ) is None,
{
    if envelope_keys().contains(key) {
        crate::fields::law_without_drops_named_members(m, envelope_keys(), key);
    } else {
        crate::fields::law_without_keeps_other_members(m, envelope_keys(), key);
    }
}

/// A placement of a kind this build does not model keeps every member but `kind`.
pub proof fn law_unknown_placement_keeps_members(m: Members, key: Seq<char>)
    requires
        placement_member(m) is Ok,
        placement_member(m)->Ok_0 is Unknown,
        key != "kind"@,
    ensures
        member(placement_member(m)->Ok_0->Unknown_fields, key) == member(
            member(m, "placement"@)->Some_0->Object_0,
            key,
        ),
{
    let p = member(m, "placement"@)->Some_0->Object_0;
    assert(!tag_only().contains(key)) by {
        if tag_only().contains(key) {
            assert(tag_only()[0] == key);
        }
    }
    crate::fields::law_without_keeps_other_members(p, tag_only(), key);
}


/// An agent action whose members have the right types reads as exactly those members: its
/// `action` text and its `forwarded` flag.
pub proof fn law_agent_action_reads_its_members(m: Members, action: Seq<char>, forwarded: bool)
    requires
        member(m, "action"@) == Some(JsonModel::Str(action)),
        member(m, "forwarded"@) == Some(JsonModel::Bool(forwarded)),
    ensures
        event_kind_of("agent-action"@, m) == Ok::<EventKindModel, Seq<char>>(
            EventKindModel::AgentAction { action, forwarded },
        ),
{
    reveal_strlit("lifecycle");
    reveal_strlit("agent-action");
    assert("agent-action"@.len() != "lifecycle"@.len());
    assert(str_member(m, "action"@) == Ok::<Seq<char>, Seq<char>>(action));
    assert(bool_member(m, "forwarded"@) == Ok::<bool, Seq<char>>(forwarded));
}

/// A request whose members have the right types reads as exactly those members: its number,
/// method, address, initiator, decision, and denial reason (absent or `null` read as none).
pub proof fn law_request_reads_its_members(
    m: Members,
    seq: u64,
    method: Seq<char>,
    url: Seq<char>,
    initiator: Seq<char>,
    allowed: bool,
    denied_reason: Option<Seq<char>>,
)
    requires
        member(m, "seq"@) == Some(JsonModel::Int(seq as int)),
        member(m, "method"@) == Some(JsonModel::Str(method)),
        member(m, "url"@) == Some(JsonModel::Str(url)),
        member(m, "initiator"@) == Some(JsonModel::Str(initiator)),
        member(m, "allowed"@) == Some(JsonModel::Bool(allowed)),
        match denied_reason {
            Some(r) => member(m, "denied_reason"@) == Some(JsonModel::Str(r)),
            None => member(m, "denied_reason"@) is None || member(m, "denied_reason"@) == Some(
                JsonModel::Null,
            ),
        },
    ensures
        event_kind_of("request"@, m) == Ok::<EventKindModel, Seq<char>>(
            EventKindModel::Request { seq, method, url, initiator, allowed, denied_reason },
        ),
{
    reveal_strlit("request");
    reveal_strlit("lifecycle");
    reveal_strlit("agent-action");
    assert("request"@.len() != "lifecycle"@.len());
    assert("request"@.len() != "agent-action"@.len());
    assert(u64_member(m, "seq"@) == Ok::<u64, Seq<char>>(seq));
    assert(str_member(m, "method"@) == Ok::<Seq<char>, Seq<char>>(method));
    assert(str_member(m, "url"@) == Ok::<Seq<char>, Seq<char>>(url));
    assert(str_member(m, "initiator"@) == Ok::<Seq<char>, Seq<char>>(initiator));
    assert(bool_member(m, "allowed"@) == Ok::<bool, Seq<char>>(allowed));
    assert(opt_str_member(m, "denied_reason"@) == Ok::<Option<Seq<char>>, Seq<char>>(denied_reason));
}

/// A read event of a modelled kind holds the values of its document's members: an agent
/// action its `action` and `forwarded`, a request its `seq`, `method`, `url`, `initiator`
/// and `allowed`.
pub proof fn law_event_keeps_its_members(m: Members)
    ensures
        event_of(JsonModel::Object(m)) matches Ok(e) ==> (e.kind matches EventKindModel::AgentAction {
            action,
            forwarded,
        } ==> member(m, "action"@) == Some(JsonModel::Str(action)) && member(m, "forwarded"@)
            == Some(JsonModel::Bool(forwarded))),
        event_of(JsonModel::Object(m)) matches Ok(e) ==> (e.kind matches EventKindModel::Request {
            seq,
            method,
            url,
            initiator,
            allowed,
            ..
        } ==> member(m, "seq"@) == Some(JsonModel::Int(seq as int)) && member(m, "method"@) == Some(
            JsonModel::Str(method),
        ) && member(m, "url"@) == Some(JsonModel::Str(url)) && member(m, "initiator"@) == Some(
            JsonModel::Str(initiator),
        ) && member(m, "allowed"@) == Some(JsonModel::Bool(allowed))),
{
}

} // verus!
