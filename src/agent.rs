//! Agents: which trajectory generator drives the robot, chosen by name, and
//! the envelope each one allows at a given moment.
use vstd::prelude::*;
use vstd::string::*;

use crate::limits::{default_envelope, near_waypoint_envelope, Envelope};
use crate::waypoints::WaypointRoute;

verus! {

/// The trajectory generators on offer.
#[derive(Clone, Copy, Debug, PartialEq, Eq, Structural)]
pub enum AgentKind {
    Circular,
    Square,
    Waypoints,
}

/// Why no agent could be chosen.
#[derive(Debug, PartialEq, Eq)]
pub enum AgentNameError {
    /// No name was given.
    Missing,
    /// The name, as given, is none of the known ones.
    Unknown(String),
}

/// The lowercase form of a text.
pub uninterp spec fn lower_of(s: Seq<char>) -> Seq<char>;

/// Relies on `str::to_lowercase`: the lowercase mapping of each character,
/// which depends on the characters alone.
#[verifier::external_body]
fn lowercase(s: &str) -> (r: String)
    ensures
        r@ == lower_of(s@),
{
    s.to_lowercase()
}

/// The agent that a lowercase name denotes, if any.
pub open spec fn kind_named(lowered: Seq<char>) -> Option<AgentKind> {
    if lowered == "circular"@ {
        Some(AgentKind::Circular)
    } else if lowered == "square"@ {
        Some(AgentKind::Square)
    } else if lowered == "waypoints"@ {
        Some(AgentKind::Waypoints)
    } else {
        None
    }
}

fn same_text(a: &str, b: &str) -> (r: bool)
    ensures
        r == (a@ == b@),
{
    let n = a.unicode_len();
    if n != b.unicode_len() {
        return false;
    }
    let mut i: usize = 0;
    while i < n
        invariant
            n == a@.len(),
            n == b@.len(),
            i <= n,
            forall|j: int| 0 <= j < i ==> a@[j] == b@[j],
        decreases n - i,
    {
        if a.get_char(i) != b.get_char(i) {
            return false;
        }
        i = i + 1;
    }
    assert(a@ =~= b@);
    true
}

/// The agent that an already lowercase name denotes, if any.
pub fn kind_of_lowered(lowered: &str) -> (r: Option<AgentKind>)
    ensures
        r == kind_named(lowered@),
{
    if same_text(lowered, "circular") {
        Some(AgentKind::Circular)
    } else if same_text(lowered, "square") {
        Some(AgentKind::Square)
    } else if same_text(lowered, "waypoints") {
        Some(AgentKind::Waypoints)
    } else {
        None
    }
}

/// Chooses the agent by its name, ignoring case. A missing name and an
/// unknown one are errors; the unknown one is reported as it was given.
pub fn parse_agent_kind(name: Option<&str>) -> (r: Result<AgentKind, AgentNameError>)
    ensures
        name is None ==> r == Err::<AgentKind, AgentNameError>(AgentNameError::Missing),
        name is Some ==> match kind_named(lower_of(name->Some_0@)) {
            Some(k) => r == Ok::<AgentKind, AgentNameError>(k),
            None => r is Err && r->Err_0 is Unknown && r->Err_0->Unknown_0@ == name->Some_0@,
        },
{
    match name {
        None => Err(AgentNameError::Missing),
        Some(given) => {
            let lowered = lowercase(given);
            match kind_of_lowered(lowered.as_str()) {
                Some(k) => Ok(k),
                None => Err(AgentNameError::Unknown(given.to_owned())),
            }
        },
    }
}

/// A trajectory generator together with the state it keeps between ticks.
#[derive(Clone, Copy, Debug, PartialEq, Eq, Structural)]
pub enum Trajectory {
    Circular,
    Square,
    Waypoints(WaypointRoute),
}

impl Trajectory {
    pub open spec fn wf(&self) -> bool {
        match self {
            Trajectory::Waypoints(route) => route.wf(),
            _ => true,
        }
    }

    pub open spec fn kind(&self) -> AgentKind {
        match self {
            Trajectory::Circular => AgentKind::Circular,
            Trajectory::Square => AgentKind::Square,
            Trajectory::Waypoints(_) => AgentKind::Waypoints,
        }
    }

    /// A fresh generator of the given kind; a waypoint route starts at its
    /// first waypoint.
    pub fn new(kind: AgentKind) -> (r: Trajectory)
        ensures
            r.wf(),
            r.kind() == kind,
            r is Waypoints ==> r->Waypoints_0.index == 0,
    {
        match kind {
            AgentKind::Circular => Trajectory::Circular,
            AgentKind::Square => Trajectory::Square,
            AgentKind::Waypoints => Trajectory::Waypoints(WaypointRoute::new()),
        }
    }

    /// The limits that hold at the current estimate. Only the waypoint route
    /// narrows them, and only when the estimate is near its current target.
    pub fn envelope(&self, near_target: bool) -> (r: Envelope)
        ensures
            (self is Waypoints && near_target) ==> r == near_waypoint_envelope(),
            !(self is Waypoints && near_target) ==> r == default_envelope(),
    {
        match self {
            Trajectory::Waypoints(_) => {
                if near_target {
                    Envelope::near_waypoint()
                } else {
                    Envelope::defaults()
                }
            },
            _ => Envelope::defaults(),
        }
    }
}

} // verus!
