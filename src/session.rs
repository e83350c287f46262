//! The presence session: whether the protocol client is connected, and what
//! each command asks of it. The caller owns the client and performs the actions.

use vstd::prelude::*;

verus! {

/// A button shown with the status.
#[derive(Clone, Debug, PartialEq, Eq)]
pub struct RpcButton {
    pub label: String,
    pub url: String,
}

/// Images and their hover texts shown with the status.
#[derive(Clone, Debug, PartialEq, Eq)]
pub struct RpcAssets {
    pub large_image: Option<String>,
    pub large_text: Option<String>,
    pub small_image: Option<String>,
    pub small_text: Option<String>,
}

/// A status as the host application describes it.
#[derive(Clone, Debug, PartialEq, Eq)]
pub struct RpcActivity {
    pub state: Option<String>,
    pub details: Option<String>,
    pub start_timestamp: Option<u64>,
    pub assets: Option<RpcAssets>,
    pub buttons: Option<Vec<RpcButton>>,
}

/// The fields to set on the protocol client's status, each absent field left unset.
#[derive(Clone, Debug, PartialEq, Eq)]
pub struct StatusPlan {
    pub details: Option<String>,
    pub state: Option<String>,
    pub assets: Option<RpcAssets>,
    pub start: Option<i64>,
    pub buttons: Option<Vec<RpcButton>>,
}

/// `p` sets exactly what `activity` describes: its texts and assets as given,
/// the start time as the protocol's signed timestamp, and the buttons only
/// when there is at least one.
pub open spec fn plans(activity: RpcActivity, p: StatusPlan) -> bool {
    &&& p.details == activity.details
    &&& p.state == activity.state
    &&& p.assets == activity.assets
    &&& p.start == match activity.start_timestamp {
        Some(t) => Some(t as i64),
        None => None::<i64>,
    }
    &&& p.buttons == match activity.buttons {
        Some(b) => if b@.len() > 0 {
            Some(b)
        } else {
            None
        },
        None => None,
    }
}

/// Turns a status description into the fields to set.
pub fn plan_status(activity: RpcActivity) -> (p: StatusPlan)
    ensures
        plans(activity, p),
{
    let start = match activity.start_timestamp {
        Some(t) => Some(t as i64),
        None => None,
    };
    let buttons = match activity.buttons {
        Some(b) => if b.len() > 0 {
            Some(b)
        } else {
            None
        },
        None => None,
    };
    StatusPlan {
        details: activity.details,
        state: activity.state,
        assets: activity.assets,
        start,
        buttons,
    }
}

/// Whether the protocol client is connected.
#[derive(Clone, Copy, Debug, PartialEq, Eq, Structural)]
pub enum SessionState {
    Disconnected,
    Connected,
}

/// What the caller does with the protocol client.
#[derive(Clone, Debug, PartialEq, Eq)]
pub enum SessionAction {
    /// Nothing to do.
    Nothing,
    /// Create the client and connect it; report success with `opened`.
    Open,
    /// Clear the visible status, then close the connection.
    ClearThenClose,
    /// Clear the visible status.
    Clear,
    /// Set the visible status to the planned fields.
    SetStatus(StatusPlan),
    /// The command needs a connection and there is none.
    NotConnected,
}

impl SessionState {
    /// A session starts disconnected.
    pub fn new() -> (r: SessionState)
        ensures
            r == SessionState::Disconnected,
    {
        SessionState::Disconnected
    }

    pub fn is_connected(&self) -> (r: bool)
        ensures
            r == (*self == SessionState::Connected),
    {
        *self == SessionState::Connected
    }

    /// Asks to connect: nothing to do when already connected, else open the
    /// client. The session stays disconnected until `opened` reports success.
    pub fn connect(&mut self) -> (a: SessionAction)
        ensures
            *final(self) == *old(self),
            *old(self) == SessionState::Connected ==> a is Nothing,
            *old(self) == SessionState::Disconnected ==> a is Open,
    {
        match self {
            SessionState::Connected => SessionAction::Nothing,
            SessionState::Disconnected => SessionAction::Open,
        }
    }

    /// The client was created and connected.
    pub fn opened(&mut self)
        ensures
            *final(self) == SessionState::Connected,
    {
        *self = SessionState::Connected;
    }

    /// Asks to disconnect: when connected, clear the status and close the
    /// connection; nothing to do otherwise. The session ends disconnected.
    pub fn disconnect(&mut self) -> (a: SessionAction)
        ensures
            *final(self) == SessionState::Disconnected,
            *old(self) == SessionState::Connected ==> a is ClearThenClose,
            *old(self) == SessionState::Disconnected ==> a is Nothing,
    {
        let a = match self {
            SessionState::Connected => SessionAction::ClearThenClose,
            SessionState::Disconnected => SessionAction::Nothing,
        };
        *self = SessionState::Disconnected;
        a
    }

    /// Asks to clear the visible status, which needs a connection.
    pub fn clear_status(&self) -> (a: SessionAction)
        ensures
            *self == SessionState::Connected ==> a is Clear,
            *self == SessionState::Disconnected ==> a is NotConnected,
    {
        match self {
            SessionState::Connected => SessionAction::Clear,
            SessionState::Disconnected => SessionAction::NotConnected,
        }
    }

    /// Asks to show `activity` as the status, which needs a connection.
    pub fn set_status(&self, activity: RpcActivity) -> (a: SessionAction)
        ensures
            *self == SessionState::Connected ==> (a matches SessionAction::SetStatus(p) && plans(
                activity,
                p,
            )),
            *self == SessionState::Disconnected ==> a is NotConnected,
    {
        match self {
            SessionState::Connected => SessionAction::SetStatus(plan_status(activity)),
            SessionState::Disconnected => SessionAction::NotConnected,
        }
    }
}

} // verus!
