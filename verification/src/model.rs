//! Types for `h5i browser audit --json` session audits, and their models.
//!
//! Every enum that the audit names by a string keeps a string it does not know in an
//! `Unknown` variant, so that a newer h5i's audit still reads and reports.

use crate::json::{members_view, Json, JsonModel};
use vstd::prelude::*;

verus! {

/// A session audit.
#[derive(Debug, Clone, PartialEq)]
pub struct Audit {
    pub session: Session,
    pub sources: Sources,
    /// Events in the order of the audit.
    pub events: Vec<Event>,
    /// How many older events the audit cap dropped.
    pub dropped: u64,
}

#[derive(Debug, Clone, PartialEq)]
pub struct Session {
    pub id: String,
    pub name: Option<String>,
    pub url: String,
    pub placement: Placement,
    pub engine: Engine,
    pub lane: SessionLane,
    pub started_at: String,
    pub ended_at: Option<String>,
    pub end_reason: Option<String>,
    pub state: State,
    pub policy_digest: String,
    pub identity: String,
    pub identity_digest: String,
    pub confinement: Option<Confinement>,
    pub restored_from: Option<String>,
}

/// Where the browser ran, tagged by `kind`.
#[derive(Debug, Clone, PartialEq)]
pub enum Placement {
    Host,
    Box { name: String },
    /// A `kind` this build does not model, with the object's other members.
    Unknown { kind: String, fields: Vec<(String, Json)> },
}

#[derive(Debug, Clone, PartialEq, Eq)]
pub enum Engine {
    H5iLight,
    Chromium,
    Unknown(String),
}

#[derive(Debug, Clone, PartialEq, Eq)]
pub enum SessionLane {
    EngineClaimed,
    HostObserved,
    Unknown(String),
}

#[derive(Debug, Clone, PartialEq, Eq)]
pub enum State {
    Live,
    Closed,
    Died,
    Expired,
    Evicted,
    Unknown(String),
}

/// How the browser was confined, tagged by `kind`.
#[derive(Debug, Clone, PartialEq)]
pub enum Confinement {
    Process,
    Unconfined { why: String },
    /// A `kind` this build does not model, with the object's other members.
    Unknown { kind: String, fields: Vec<(String, Json)> },
}

/// Evidence availability of each audit source.
#[derive(Debug, Clone, PartialEq, Eq)]
pub struct Sources {
    pub actions: Availability,
    pub requests: Availability,
    pub control: Availability,
    pub helpers: Availability,
    pub messages: Availability,
}

#[derive(Debug, Clone, PartialEq, Eq)]
pub enum Availability {
    Read,
    /// What h5i assumes for `helpers` and `messages` when the audit leaves them out.
    Empty,
    Unavailable,
    Partial,
    Unknown(String),
}

#[derive(Debug, Clone, PartialEq)]
pub struct Event {
    pub id: u64,
    pub observed_at: String,
    pub lane: EventLane,
    pub grade: Grade,
    pub caused_by: Option<u64>,
    pub claimed_at: Option<String>,
    pub kind: EventKind,
}

#[derive(Debug, Clone, PartialEq, Eq)]
pub enum EventLane {
    HostObserved,
    BoxClaimed,
    Unknown(String),
}

#[derive(Debug, Clone, PartialEq, Eq)]
pub enum Grade {
    FailClosed,
    BestEffort,
    Unknown(String),
}

#[derive(Debug, Clone, PartialEq)]
#[allow(inconsistent_fields)]
pub enum EventKind {
    Lifecycle { state: String, reason: Option<String> },
    AgentAction { action: String, forwarded: bool },
    Request {
        seq: u64,
        method: String,
        url: String,
        initiator: String,
        allowed: bool,
        denied_reason: Option<String>,
    },
    Response {
        seq: u64,
        status: Option<u16>,
        bytes: Option<u64>,
        duration_ms: Option<u64>,
        error: Option<String>,
    },
    PolicyVerdict { subject: String, reason: String },
    Control { holder: String, note: Option<String> },
    Helper { name: String, argv: Vec<String>, status: Option<i32>, note: Option<String> },
    /// Kind this build does not model, with the event's members other than the envelope.
    Unknown { kind: String, fields: Vec<(String, Json)> },
}

impl Default for Availability {
    /// `empty`, what h5i assumes for a source the audit leaves out.
    fn default() -> (r: Availability)
        ensures
            r@ == AvailabilityModel::Empty,
    {
        Availability::Empty
    }
}

// ---------------------------------------------------------------------------
// Models
// ---------------------------------------------------------------------------
/// Object members, by model.
pub type Members = Seq<(Seq<char>, JsonModel)>;

pub struct AuditModel {
    pub session: SessionModel,
    pub sources: SourcesModel,
    pub events: Seq<EventModel>,
    pub dropped: u64,
}

pub struct SessionModel {
    pub id: Seq<char>,
    pub name: Option<Seq<char>>,
    pub url: Seq<char>,
    pub placement: PlacementModel,
    pub engine: EngineModel,
    pub lane: SessionLaneModel,
    pub started_at: Seq<char>,
    pub ended_at: Option<Seq<char>>,
    pub end_reason: Option<Seq<char>>,
    pub state: StateModel,
    pub policy_digest: Seq<char>,
    pub identity: Seq<char>,
    pub identity_digest: Seq<char>,
    pub confinement: Option<ConfinementModel>,
    pub restored_from: Option<Seq<char>>,
}

pub enum PlacementModel {
    Host,
    Box { name: Seq<char> },
    Unknown { kind: Seq<char>, fields: Members },
}

pub enum EngineModel {
    H5iLight,
    Chromium,
    Unknown(Seq<char>),
}

pub enum SessionLaneModel {
    EngineClaimed,
    HostObserved,
    Unknown(Seq<char>),
}

pub enum StateModel {
    Live,
    Closed,
    Died,
    Expired,
    Evicted,
    Unknown(Seq<char>),
}

pub enum ConfinementModel {
    Process,
    Unconfined { why: Seq<char> },
    Unknown { kind: Seq<char>, fields: Members },
}

pub struct SourcesModel {
    pub actions: AvailabilityModel,
    pub requests: AvailabilityModel,
    pub control: AvailabilityModel,
    pub helpers: AvailabilityModel,
    pub messages: AvailabilityModel,
}

pub enum AvailabilityModel {
    Read,
    Empty,
    Unavailable,
    Partial,
    Unknown(Seq<char>),
}

pub struct EventModel {
    pub id: u64,
    pub observed_at: Seq<char>,
    pub lane: EventLaneModel,
    pub grade: GradeModel,
    pub caused_by: Option<u64>,
    pub claimed_at: Option<Seq<char>>,
    pub kind: EventKindModel,
}

pub enum EventLaneModel {
    HostObserved,
    BoxClaimed,
    Unknown(Seq<char>),
}

pub enum GradeModel {
    FailClosed,
    BestEffort,
    Unknown(Seq<char>),
}

#[allow(inconsistent_fields)]
pub enum EventKindModel {
    Lifecycle { state: Seq<char>, reason: Option<Seq<char>> },
    AgentAction { action: Seq<char>, forwarded: bool },
    Request {
        seq: u64,
        method: Seq<char>,
        url: Seq<char>,
        initiator: Seq<char>,
        allowed: bool,
        denied_reason: Option<Seq<char>>,
    },
    Response {
        seq: u64,
        status: Option<u16>,
        bytes: Option<u64>,
        duration_ms: Option<u64>,
        error: Option<Seq<char>>,
    },
    PolicyVerdict { subject: Seq<char>, reason: Seq<char> },
    Control { holder: Seq<char>, note: Option<Seq<char>> },
    Helper { name: Seq<char>, argv: Seq<Seq<char>>, status: Option<i32>, note: Option<Seq<char>> },
    Unknown { kind: Seq<char>, fields: Members },
}

/// The model of an optional string.
pub open spec fn opt_view(s: Option<String>) -> Option<Seq<char>> {
    match s {
        Some(t) => Some(t@),
        None => None,
    }
}

/// The model of a list of strings.
pub open spec fn strings_view(v: Seq<String>) -> Seq<Seq<char>> {
    v.map_values(|s: String| s@)
}

impl View for Audit {
    type V = AuditModel;

    open spec fn view(&self) -> AuditModel {
        AuditModel {
            session: self.session@,
            sources: self.sources@,
            events: self.events@.map_values(|e: Event| e@),
            dropped: self.dropped,
        }
    }
}

impl View for Session {
    type V = SessionModel;

    open spec fn view(&self) -> SessionModel {
        SessionModel {
            id: self.id@,
            name: opt_view(self.name),
            url: self.url@,
            placement: self.placement@,
            engine: self.engine@,
            lane: self.lane@,
            started_at: self.started_at@,
            ended_at: opt_view(self.ended_at),
            end_reason: opt_view(self.end_reason),
            state: self.state@,
            policy_digest: self.policy_digest@,
            identity: self.identity@,
            identity_digest: self.identity_digest@,
            confinement: match self.confinement {
                Some(c) => Some(c@),
                None => None,
            },
            restored_from: opt_view(self.restored_from),
        }
    }
}

impl View for Placement {
    type V = PlacementModel;

    open spec fn view(&self) -> PlacementModel {
        match self {
            Placement::Host => PlacementModel::Host,
            Placement::Box { name } => PlacementModel::Box { name: name@ },
            Placement::Unknown { kind, fields } => PlacementModel::Unknown {
                kind: kind@,
                fields: members_view(fields@),
            },
        }
    }
}

impl View for Engine {
    type V = EngineModel;

    open spec fn view(&self) -> EngineModel {
        match self {
            Engine::H5iLight => EngineModel::H5iLight,
            Engine::Chromium => EngineModel::Chromium,
            Engine::Unknown(s) => EngineModel::Unknown(s@),
        }
    }
}

impl View for SessionLane {
    type V = SessionLaneModel;

    open spec fn view(&self) -> SessionLaneModel {
        match self {
            SessionLane::EngineClaimed => SessionLaneModel::EngineClaimed,
            SessionLane::HostObserved => SessionLaneModel::HostObserved,
            SessionLane::Unknown(s) => SessionLaneModel::Unknown(s@),
        }
    }
}

impl View for State {
    type V = StateModel;

    open spec fn view(&self) -> StateModel {
        match self {
            State::Live => StateModel::Live,
            State::Closed => StateModel::Closed,
            State::Died => StateModel::Died,
            State::Expired => StateModel::Expired,
            State::Evicted => StateModel::Evicted,
            State::Unknown(s) => StateModel::Unknown(s@),
        }
    }
}

impl View for Confinement {
    type V = ConfinementModel;

    open spec fn view(&self) -> ConfinementModel {
        match self {
            Confinement::Process => ConfinementModel::Process,
            Confinement::Unconfined { why } => ConfinementModel::Unconfined { why: why@ },
            Confinement::Unknown { kind, fields } => ConfinementModel::Unknown {
                kind: kind@,
                fields: members_view(fields@),
            },
        }
    }
}

impl View for Sources {
    type V = SourcesModel;

    open spec fn view(&self) -> SourcesModel {
        SourcesModel {
            actions: self.actions@,
            requests: self.requests@,
            control: self.control@,
            helpers: self.helpers@,
            messages: self.messages@,
        }
    }
}

impl View for Availability {
    type V = AvailabilityModel;

    open spec fn view(&self) -> AvailabilityModel {
        match self {
            Availability::Read => AvailabilityModel::Read,
            Availability::Empty => AvailabilityModel::Empty,
            Availability::Unavailable => AvailabilityModel::Unavailable,
            Availability::Partial => AvailabilityModel::Partial,
            Availability::Unknown(s) => AvailabilityModel::Unknown(s@),
        }
    }
}

impl View for Event {
    type V = EventModel;

    open spec fn view(&self) -> EventModel {
        EventModel {
            id: self.id,
            observed_at: self.observed_at@,
            lane: self.lane@,
            grade: self.grade@,
            caused_by: self.caused_by,
            claimed_at: opt_view(self.claimed_at),
            kind: self.kind@,
        }
    }
}

impl View for EventLane {
    type V = EventLaneModel;

    open spec fn view(&self) -> EventLaneModel {
        match self {
            EventLane::HostObserved => EventLaneModel::HostObserved,
            EventLane::BoxClaimed => EventLaneModel::BoxClaimed,
            EventLane::Unknown(s) => EventLaneModel::Unknown(s@),
        }
    }
}

impl View for Grade {
    type V = GradeModel;

    open spec fn view(&self) -> GradeModel {
        match self {
            Grade::FailClosed => GradeModel::FailClosed,
            Grade::BestEffort => GradeModel::BestEffort,
            Grade::Unknown(s) => GradeModel::Unknown(s@),
        }
    }
}

impl View for EventKind {
    type V = EventKindModel;

    open spec fn view(&self) -> EventKindModel {
        match self {
            EventKind::Lifecycle { state, reason } => EventKindModel::Lifecycle {
                state: state@,
                reason: opt_view(*reason),
            },
            EventKind::AgentAction { action, forwarded } => EventKindModel::AgentAction {
                action: action@,
                forwarded: *forwarded,
            },
            EventKind::Request { seq, method, url, initiator, allowed, denied_reason } =>
                EventKindModel::Request {
                seq: *seq,
                method: method@,
                url: url@,
                initiator: initiator@,
                allowed: *allowed,
                denied_reason: opt_view(*denied_reason),
            },
            EventKind::Response { seq, status, bytes, duration_ms, error } =>
                EventKindModel::Response {
                seq: *seq,
                status: *status,
                bytes: *bytes,
                duration_ms: *duration_ms,
                error: opt_view(*error),
            },
            EventKind::PolicyVerdict { subject, reason } => EventKindModel::PolicyVerdict {
                subject: subject@,
                reason: reason@,
            },
            EventKind::Control { holder, note } => EventKindModel::Control {
                holder: holder@,
                note: opt_view(*note),
            },
            EventKind::Helper { name, argv, status, note } => EventKindModel::Helper {
                name: name@,
                argv: strings_view(argv@),
                status: *status,
                note: opt_view(*note),
            },
            EventKind::Unknown { kind, fields } => EventKindModel::Unknown {
                kind: kind@,
                fields: members_view(fields@),
            },
        }
    }
}

} // verus!
