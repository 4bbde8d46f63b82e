//! The session status that the external service reports, and the shared
//! cache of its last observed value.

use vstd::prelude::*;
use vstd::string::*;
use crate::json::{
    bool_member, json_bool_member, json_string_member, members_view, pretty_json, pretty_object,
    string_member, JsonField, JsonFieldView,
};

verus! {

/// The connection state of the messaging session, as written to `status.txt`.
#[derive(Debug, Clone)]
pub struct SessionStatus {
    pub status: String,
    pub timestamp: String,
    pub is_authenticated: bool,
    pub is_client_ready: bool,
    pub is_initializing: bool,
}

/// The value of a [`SessionStatus`].
pub struct StatusView {
    pub status: Seq<char>,
    pub timestamp: Seq<char>,
    pub is_authenticated: bool,
    pub is_client_ready: bool,
    pub is_initializing: bool,
}

impl View for SessionStatus {
    type V = StatusView;

    open spec fn view(&self) -> StatusView {
        StatusView {
            status: self.status@,
            timestamp: self.timestamp@,
            is_authenticated: self.is_authenticated,
            is_client_ready: self.is_client_ready,
            is_initializing: self.is_initializing,
        }
    }
}

/// A session can carry outbound messages only when it is both authenticated
/// and ready.
pub open spec fn is_connected(s: StatusView) -> bool {
    s.is_authenticated && s.is_client_ready
}

/// The status that a JSON text describes: all five members present with the
/// right types, other members ignored.
pub open spec fn status_of_json(text: Seq<char>) -> Option<StatusView> {
    let status = json_string_member(text, "status"@);
    let timestamp = json_string_member(text, "timestamp"@);
    let authenticated = json_bool_member(text, "isAuthenticated"@);
    let client_ready = json_bool_member(text, "isClientReady"@);
    let initializing = json_bool_member(text, "isInitializing"@);
    if status is Some && timestamp is Some && authenticated is Some && client_ready is Some
        && initializing is Some {
        Some(
            StatusView {
                status: status->Some_0,
                timestamp: timestamp->Some_0,
                is_authenticated: authenticated->Some_0,
                is_client_ready: client_ready->Some_0,
                is_initializing: initializing->Some_0,
            },
        )
    } else {
        None
    }
}

/// The members under which a status is written, in the wire format's names.
pub open spec fn status_members(s: StatusView) -> Seq<(Seq<char>, JsonFieldView)> {
    seq![
        ("status"@, JsonFieldView::Text(s.status)),
        ("timestamp"@, JsonFieldView::Text(s.timestamp)),
        ("isAuthenticated"@, JsonFieldView::Flag(s.is_authenticated)),
        ("isClientReady"@, JsonFieldView::Flag(s.is_client_ready)),
        ("isInitializing"@, JsonFieldView::Flag(s.is_initializing)),
    ]
}

impl SessionStatus {
    /// The status that the initializer writes before the external service
    /// has reported anything.
    pub fn initializing(timestamp: String) -> (r: SessionStatus)
        ensures
            r.status@ == "initializing"@,
            r.timestamp@ == timestamp@,
            !r.is_authenticated,
            !r.is_client_ready,
            r.is_initializing,
    {
        SessionStatus {
            status: String::from_str("initializing"),
            timestamp,
            is_authenticated: false,
            is_client_ready: false,
            is_initializing: true,
        }
    }

    /// Whether outbound messages may be dispatched in this state.
    pub fn is_connected(&self) -> (r: bool)
        ensures
            r == is_connected(self@),
    {
        self.is_authenticated && self.is_client_ready
    }

    /// A copy with the same value.
    pub fn snapshot(&self) -> (r: SessionStatus)
        ensures
            r@ == self@,
    {
        SessionStatus {
            status: self.status.clone(),
            timestamp: self.timestamp.clone(),
            is_authenticated: self.is_authenticated,
            is_client_ready: self.is_client_ready,
            is_initializing: self.is_initializing,
        }
    }

    /// Reads a status from the text of `status.txt`; `None` when the text is
    /// no JSON object with the five members.
    pub fn parse(text: &str) -> (r: Option<SessionStatus>)
        ensures
            match r {
                Some(s) => status_of_json(text@) == Some(s@),
                None => status_of_json(text@) is None,
            },
    {
        let status = string_member(text, "status");
        let timestamp = string_member(text, "timestamp");
        let authenticated = bool_member(text, "isAuthenticated");
        let client_ready = bool_member(text, "isClientReady");
        let initializing = bool_member(text, "isInitializing");
        match (status, timestamp, authenticated, client_ready, initializing) {
            (Some(status), Some(timestamp), Some(a), Some(c), Some(i)) => Some(
                SessionStatus {
                    status,
                    timestamp,
                    is_authenticated: a,
                    is_client_ready: c,
                    is_initializing: i,
                },
            ),
            _ => None,
        }
    }

    /// The pretty JSON text of this status, as the initializer writes it to
    /// `status.txt`; serializing a status always succeeds.
    pub fn to_document(&self) -> (r: Result<String, String>)
        ensures
            r is Ok,
            r is Ok ==> r->Ok_0@ == pretty_object(status_members(self@)),
    {
        let members = vec![
            (String::from_str("status"), JsonField::Text(self.status.clone())),
            (String::from_str("timestamp"), JsonField::Text(self.timestamp.clone())),
            (String::from_str("isAuthenticated"), JsonField::Flag(self.is_authenticated)),
            (String::from_str("isClientReady"), JsonField::Flag(self.is_client_ready)),
            (String::from_str("isInitializing"), JsonField::Flag(self.is_initializing)),
        ];
        proof {
            assert(members_view(members@) =~= status_members(self@));
        }
        pretty_json(&members)
    }
}

/// The last observed session status, shared between the monitor, which
/// writes it, and command handlers, which read it. The host keeps it behind
/// one lock and never does I/O while holding it.
pub struct SessionCache {
    current: SessionStatus,
}

impl View for SessionCache {
    type V = StatusView;

    closed spec fn view(&self) -> StatusView {
        self.current@
    }
}

impl SessionCache {
    /// A cache holding `initial` until the first status is observed.
    pub fn new(initial: SessionStatus) -> (r: SessionCache)
        ensures
            r@ == initial@,
    {
        SessionCache { current: initial }
    }

    /// The cached status.
    pub fn get(&self) -> (r: SessionStatus)
        ensures
            r@ == self@,
    {
        self.current.snapshot()
    }

    /// Replaces the cached status.
    pub fn set(&mut self, status: SessionStatus)
        ensures
            final(self)@ == status@,
    {
        self.current = status;
    }
}

} // verus!
