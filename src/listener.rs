//! The listener registry: subscriptions to inbound messages, each with its
//! own poller on its own `received_<id>.json`.

use vstd::prelude::*;
use vstd::string::*;
use crate::dispatch::BridgeError;
use crate::json::{
    bool_member, json_bool_member, json_string_member, members_view, pretty_json, pretty_object,
    string_member, JsonField, JsonFieldView,
};

verus! {

/// The interval between two polls of a listener, in milliseconds.
pub const LISTENER_POLL_MS: u64 = 500;

/// A message that the external service delivered to a listener.
#[derive(Debug, Clone)]
pub struct InboundMessage {
    pub from: String,
    pub to: String,
    pub from_me: bool,
    pub content: String,
    pub timestamp: String,
}

/// The value of an [`InboundMessage`].
pub struct InboundView {
    pub from: Seq<char>,
    pub to: Seq<char>,
    pub from_me: bool,
    pub content: Seq<char>,
    pub timestamp: Seq<char>,
}

impl View for InboundMessage {
    type V = InboundView;

    open spec fn view(&self) -> InboundView {
        InboundView {
            from: self.from@,
            to: self.to@,
            from_me: self.from_me,
            content: self.content@,
            timestamp: self.timestamp@,
        }
    }
}

/// The message that a JSON text describes: all five members present with the
/// right types, other members ignored.
pub open spec fn inbound_of_json(text: Seq<char>) -> Option<InboundView> {
    let from = json_string_member(text, "from"@);
    let to = json_string_member(text, "to"@);
    let from_me = json_bool_member(text, "fromMe"@);
    let content = json_string_member(text, "content"@);
    let timestamp = json_string_member(text, "timestamp"@);
    if from is Some && to is Some && from_me is Some && content is Some && timestamp is Some {
        Some(
            InboundView {
                from: from->Some_0,
                to: to->Some_0,
                from_me: from_me->Some_0,
                content: content->Some_0,
                timestamp: timestamp->Some_0,
            },
        )
    } else {
        None
    }
}

impl InboundMessage {
    /// Reads a message from the text of an inbound file; `None` when the text
    /// is no JSON object with the five members.
    pub fn parse(text: &str) -> (r: Option<InboundMessage>)
        ensures
            match r {
                Some(m) => inbound_of_json(text@) == Some(m@),
                None => inbound_of_json(text@) is None,
            },
    {
        let from = string_member(text, "from");
        let to = string_member(text, "to");
        let from_me = bool_member(text, "fromMe");
        let content = string_member(text, "content");
        let timestamp = string_member(text, "timestamp");
        match (from, to, from_me, content, timestamp) {
            (Some(from), Some(to), Some(from_me), Some(content), Some(timestamp)) => Some(
                InboundMessage { from, to, from_me, content, timestamp },
            ),
            _ => None,
        }
    }
}

/// The name of the inbound file addressed to the listener `id`.
pub open spec fn inbound_name(id: Seq<char>) -> Seq<char> {
    "received_"@ + id + ".json"@
}

/// The name of the file in which messages for the listener `id` arrive.
pub fn inbound_file_name(id: &str) -> (r: String)
    ensures
        r@ == inbound_name(id@),
{
    let mut r = String::from_str("received_");
    r.append(id);
    r.append(".json");
    r
}

/// Distinct listeners read distinct files, so a message addressed to one is
/// never seen by another.
pub proof fn law_listeners_are_isolated(a: Seq<char>, b: Seq<char>)
    requires
        a != b,
    ensures
        inbound_name(a) != inbound_name(b),
{
    reveal_strlit("received_");
    reveal_strlit(".json");
    if inbound_name(a) == inbound_name(b) {
        let p = "received_"@;
        let q = ".json"@;
        assert(inbound_name(a).len() == p.len() + a.len() + q.len());
        assert(a.len() == b.len());
        assert(inbound_name(a).subrange(9, 9 + a.len() as int) =~= a);
        assert(inbound_name(b).subrange(9, 9 + b.len() as int) =~= b);
    }
}

/// A subscription as the caller registers it.
pub struct ListenerSubscription {
    pub id: String,
    pub phone_numbers: Vec<String>,
    pub command: String,
}

/// The members of `listeners.json`.
pub open spec fn subscription_members(
    id: Seq<char>,
    phone_numbers: Seq<Seq<char>>,
    command: Seq<char>,
) -> Seq<(Seq<char>, JsonFieldView)> {
    seq![
        ("id"@, JsonFieldView::Text(id)),
        ("phoneNumbers"@, JsonFieldView::TextList(phone_numbers)),
        ("command"@, JsonFieldView::Text(command)),
    ]
}

impl ListenerSubscription {
    /// The pretty JSON text of `listeners.json` for this subscription.
    pub fn to_document(&self) -> (r: Result<String, BridgeError>)
        ensures
            r is Ok,
            r is Ok ==> r->Ok_0@ == pretty_object(
                subscription_members(self.id@, self.phone_numbers.deep_view(), self.command@),
            ),
    {
        let members = vec![
            (String::from_str("id"), JsonField::Text(self.id.clone())),
            (String::from_str("phoneNumbers"), JsonField::TextList(self.phone_numbers.clone())),
            (String::from_str("command"), JsonField::Text(self.command.clone())),
        ];
        proof {
            assert(members_view(members@) =~= subscription_members(
                self.id@,
                self.phone_numbers.deep_view(),
                self.command@,
            ));
        }
        match pretty_json(&members) {
            Ok(text) => Ok(text),
            Err(e) => {
                let mut m = String::from_str("Failed to serialize listener data: ");
                m.append(e.as_str());
                Err(BridgeError::Serialization(m))
            },
        }
    }
}

/// What a listener's poller sees of its inbound file in one poll.
pub struct InboundObservation {
    /// The file's modification time, in nanoseconds since the Unix epoch.
    pub modified: u64,
    /// The file's text, `None` when it could not be read.
    pub content: Option<String>,
}

/// What a listener does after one poll.
#[derive(Debug, Clone)]
pub enum ListenerStep {
    /// Nothing new.
    Idle,
    /// A new message: emit a message-received event with it, then remove the
    /// inbound file.
    Deliver(InboundMessage),
    /// The file changed but holds no message: leave it and wait for a newer
    /// modification.
    Skip,
}

/// Whether a step removes the inbound file: it does once its message has
/// been delivered, so each file instance is delivered at most once.
pub open spec fn removes_inbound_file(step: ListenerStepView) -> bool {
    step is Deliver
}

/// The value of a [`ListenerStep`].
pub enum ListenerStepView {
    Idle,
    Deliver(InboundView),
    Skip,
}

impl View for ListenerStep {
    type V = ListenerStepView;

    open spec fn view(&self) -> ListenerStepView {
        match self {
            ListenerStep::Idle => ListenerStepView::Idle,
            ListenerStep::Deliver(m) => ListenerStepView::Deliver(m@),
            ListenerStep::Skip => ListenerStepView::Skip,
        }
    }
}

/// One poll of a listener, as values: the modification time it has seen up
/// to afterwards, and the step. `observed` is the inbound file's modification
/// time and text, `None` when the file is not there. A file counts as new only
/// when it was modified after everything seen so far; once handled, nothing
/// modified at or before that time or before `now` counts again.
pub open spec fn listener_step(
    last_seen: u64,
    now: u64,
    observed: Option<(u64, Option<Seq<char>>)>,
) -> (u64, ListenerStepView) {
    match observed {
        None => (last_seen, ListenerStepView::Idle),
        Some((modified, content)) => if modified <= last_seen {
            (last_seen, ListenerStepView::Idle)
        } else {
            let seen = if now > modified {
                now
            } else {
                modified
            };
            match content {
                Some(text) => match inbound_of_json(text) {
                    Some(m) => (seen, ListenerStepView::Deliver(m)),
                    None => (seen, ListenerStepView::Skip),
                },
                None => (seen, ListenerStepView::Skip),
            }
        },
    }
}

/// The value of an observation.
pub open spec fn observation_view(o: Option<InboundObservation>) -> Option<(u64, Option<Seq<char>>)> {
    match o {
        Some(obs) => Some((obs.modified, obs.content.deep_view())),
        None => None,
    }
}

/// The poller of one subscription.
pub struct Listener {
    id: String,
    last_seen: u64,
}

/// The value of a [`Listener`].
pub struct ListenerView {
    pub id: Seq<char>,
    pub last_seen: u64,
}

impl View for Listener {
    type V = ListenerView;

    closed spec fn view(&self) -> ListenerView {
        ListenerView { id: self.id@, last_seen: self.last_seen }
    }
}

impl Listener {
    /// The poller of the listener `id`, registered at `now` (nanoseconds
    /// since the Unix epoch): files modified before then are not delivered.
    pub fn new(id: String, now: u64) -> (r: Listener)
        ensures
            r@.id == id@,
            r@.last_seen == now,
    {
        Listener { id, last_seen: now }
    }

    /// The listener's id.
    pub fn id(&self) -> (r: &String)
        ensures
            r@ == self@.id,
    {
        &self.id
    }

    /// The name of the inbound file that this listener watches.
    pub fn inbound_file_name(&self) -> (r: String)
        ensures
            r@ == inbound_name(self@.id),
    {
        inbound_file_name(self.id.as_str())
    }

    /// One poll at time `now`, given what was observed of the inbound file.
    pub fn poll(&mut self, now: u64, observed: Option<InboundObservation>) -> (r: ListenerStep)
        ensures
            final(self)@.id == old(self)@.id,
            (final(self)@.last_seen, r@) == listener_step(
                old(self)@.last_seen,
                now,
                observation_view(observed),
            ),
    {
        match observed {
            None => ListenerStep::Idle,
            Some(obs) => {
                if obs.modified <= self.last_seen {
                    ListenerStep::Idle
                } else {
                    self.last_seen = if now > obs.modified {
                        now
                    } else {
                        obs.modified
                    };
                    match obs.content {
                        Some(text) => match InboundMessage::parse(text.as_str()) {
                            Some(m) => ListenerStep::Deliver(m),
                            None => ListenerStep::Skip,
                        },
                        None => ListenerStep::Skip,
                    }
                }
            },
        }
    }
}

/// A listener delivers at most once per modification time: a file seen again
/// with the same modification time, whatever it now holds, raises nothing.
pub proof fn law_once_per_modification_time(
    last_seen: u64,
    now1: u64,
    now2: u64,
    modified: u64,
    content1: Option<Seq<char>>,
    content2: Option<Seq<char>>,
)
    ensures
        ({
            let (seen1, step1) = listener_step(last_seen, now1, Some((modified, content1)));
            let (seen2, step2) = listener_step(seen1, now2, Some((modified, content2)));
            &&& step2 is Idle
            &&& seen2 == seen1
            &&& seen1 >= last_seen
        }),
{
}

} // verus!
