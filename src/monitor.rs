//! The status and pairing-code monitor: one poll at a time, it turns the
//! contents of `status.txt` and `qr.txt` into deduplicated events and keeps
//! the session cache up to date.

use vstd::prelude::*;
use crate::status::{status_of_json, SessionCache, SessionStatus, StatusView};
use crate::text::{trim_of, trim_text};

verus! {

/// What the monitor remembers between polls: the last status name and the
/// last pairing code it emitted.
pub struct Monitor {
    last_status: String,
    last_qr: String,
}

/// The value of a [`Monitor`].
pub struct MonitorView {
    pub last_status: Seq<char>,
    pub last_qr: Seq<char>,
}

impl View for Monitor {
    type V = MonitorView;

    closed spec fn view(&self) -> MonitorView {
        MonitorView { last_status: self.last_status@, last_qr: self.last_qr@ }
    }
}

/// The events of one poll.
pub struct MonitorEvents {
    /// A new status, to be emitted as a status-changed event.
    pub status_changed: Option<SessionStatus>,
    /// A new pairing code, to be emitted as a QR-updated event.
    pub qr_updated: Option<String>,
}

/// The status event due when `status.txt` reads `text` (`None`: missing or
/// unreadable): a status that parses and whose name differs from the last
/// one emitted.
pub open spec fn status_event(last_status: Seq<char>, text: Option<Seq<char>>) -> Option<StatusView> {
    match text {
        Some(t) => match status_of_json(t) {
            Some(v) => if v.status != last_status {
                Some(v)
            } else {
                None
            },
            None => None,
        },
        None => None,
    }
}

/// The pairing-code event due when `qr.txt` reads `text`: its trimmed content,
/// when that differs from the last one emitted.
pub open spec fn qr_event(last_qr: Seq<char>, text: Option<Seq<char>>) -> Option<Seq<char>> {
    match text {
        Some(t) => if trim_of(t) != last_qr {
            Some(trim_of(t))
        } else {
            None
        },
        None => None,
    }
}

/// One poll of the monitor, as values: the monitor afterwards, the cache
/// afterwards, and the two events.
pub open spec fn monitor_step(
    m: MonitorView,
    cache: StatusView,
    status_text: Option<Seq<char>>,
    qr_text: Option<Seq<char>>,
) -> (MonitorView, StatusView, Option<StatusView>, Option<Seq<char>>) {
    let se = status_event(m.last_status, status_text);
    let qe = qr_event(m.last_qr, qr_text);
    let last_status = match se {
        Some(v) => v.status,
        None => m.last_status,
    };
    let last_qr = match qe {
        Some(q) => q,
        None => m.last_qr,
    };
    let new_cache = match se {
        Some(v) => v,
        None => cache,
    };
    (MonitorView { last_status, last_qr }, new_cache, se, qe)
}

impl Monitor {
    /// A monitor that has emitted nothing yet.
    pub fn new() -> (r: Monitor)
        ensures
            r@.last_status.len() == 0,
            r@.last_qr.len() == 0,
    {
        Monitor { last_status: String::new(), last_qr: String::new() }
    }

    /// One poll, given what `status.txt` and `qr.txt` read (`None` where a
    /// file is missing or unreadable). A status event updates the cache.
    pub fn poll(
        &mut self,
        cache: &mut SessionCache,
        status_text: Option<String>,
        qr_text: Option<String>,
    ) -> (r: MonitorEvents)
        ensures
            ({
                let (m, c, se, qe) = monitor_step(
                    old(self)@,
                    old(cache)@,
                    status_text.deep_view(),
                    qr_text.deep_view(),
                );
                &&& final(self)@ == m
                &&& final(cache)@ == c
                &&& match r.status_changed {
                    Some(s) => se == Some(s@),
                    None => se is None,
                }
                &&& r.qr_updated.deep_view() == qe
            }),
    {
        let mut status_changed: Option<SessionStatus> = None;
        match status_text {
            Some(text) => {
                match SessionStatus::parse(text.as_str()) {
                    Some(parsed) => {
                        if parsed.status != self.last_status {
                            self.last_status = parsed.status.clone();
                            cache.set(parsed.snapshot());
                            status_changed = Some(parsed);
                        }
                    },
                    None => {},
                }
            },
            None => {},
        }
        let mut qr_updated: Option<String> = None;
        match qr_text {
            Some(text) => {
                let qr = trim_text(text.as_str());
                if qr != self.last_qr {
                    self.last_qr = qr.clone();
                    qr_updated = Some(qr);
                }
            },
            None => {},
        }
        MonitorEvents { status_changed, qr_updated }
    }
}

/// A status that parses and names a state other than the last one emitted is
/// emitted once, and the cache then holds exactly that status.
pub proof fn law_status_change_reaches_cache(
    m: MonitorView,
    cache: StatusView,
    text: Seq<char>,
    qr_text: Option<Seq<char>>,
)
    requires
        status_of_json(text) is Some,
        status_of_json(text)->Some_0.status != m.last_status,
    ensures
        ({
            let (m1, c1, se, qe) = monitor_step(m, cache, Some(text), qr_text);
            &&& c1 == status_of_json(text)->Some_0
            &&& se == status_of_json(text)
            &&& m1.last_status == c1.status
        }),
{
}

/// Writing the same status and pairing code again raises no second event and
/// leaves the cache as it was.
pub proof fn law_repeated_write_is_silent(
    m: MonitorView,
    cache: StatusView,
    status_text: Option<Seq<char>>,
    qr_text: Option<Seq<char>>,
)
    ensures
        ({
            let (m1, c1, se1, qe1) = monitor_step(m, cache, status_text, qr_text);
            let (m2, c2, se2, qe2) = monitor_step(m1, c1, status_text, qr_text);
            &&& se2 is None
            &&& qe2 is None
            &&& c2 == c1
            &&& m2 == m1
        }),
{
}

/// The status names that a run of reads of `status.txt` parses to, in order;
/// missing and unparsable reads left out.
pub open spec fn parsed_names(texts: Seq<Option<Seq<char>>>) -> Seq<Seq<char>>
    decreases texts.len(),
{
    if texts.len() == 0 {
        Seq::empty()
    } else {
        let prev = parsed_names(texts.drop_last());
        match texts.last() {
            Some(t) => match status_of_json(t) {
                Some(v) => prev.push(v.status),
                None => prev,
            },
            None => prev,
        }
    }
}

/// The last of `names`, or `start` when there is none.
pub open spec fn last_name(start: Seq<char>, names: Seq<Seq<char>>) -> Seq<char> {
    if names.len() == 0 {
        start
    } else {
        names.last()
    }
}

/// How many times the name changes along `names`, starting from `start`.
pub open spec fn transitions(start: Seq<char>, names: Seq<Seq<char>>) -> nat
    decreases names.len(),
{
    if names.len() == 0 {
        0
    } else {
        let before = last_name(start, names.drop_last());
        transitions(start, names.drop_last()) + if names.last() != before {
            1nat
        } else {
            0nat
        }
    }
}

/// A run of polls that read `texts` from `status.txt` (and nothing from
/// `qr.txt`): the monitor and cache afterwards, and how many status events
/// were raised.
pub open spec fn run_status(m: MonitorView, cache: StatusView, texts: Seq<Option<Seq<char>>>) -> (
    MonitorView,
    StatusView,
    nat,
)
    decreases texts.len(),
{
    if texts.len() == 0 {
        (m, cache, 0)
    } else {
        let (m1, c1, n) = run_status(m, cache, texts.drop_last());
        let (m2, c2, se, qe) = monitor_step(m1, c1, texts.last(), None);
        (m2, c2, n + if se is Some {
            1nat
        } else {
            0nat
        })
    }
}

/// Over any run of reads of `status.txt`, exactly one status event is raised
/// per change of the status name among the reads that parse, and the monitor
/// ends remembering the last name read.
pub proof fn law_one_event_per_transition(
    m: MonitorView,
    cache: StatusView,
    texts: Seq<Option<Seq<char>>>,
)
    ensures
        run_status(m, cache, texts).2 == transitions(m.last_status, parsed_names(texts)),
        run_status(m, cache, texts).0.last_status == last_name(
            m.last_status,
            parsed_names(texts),
        ),
    decreases texts.len(),
{
    if texts.len() > 0 {
        law_one_event_per_transition(m, cache, texts.drop_last());
        let names = parsed_names(texts.drop_last());
        match texts.last() {
            Some(t) => match status_of_json(t) {
                Some(v) => {
                    assert(names.push(v.status).drop_last() =~= names);
                },
                None => {},
            },
            None => {},
        }
    }
}

} // verus!
