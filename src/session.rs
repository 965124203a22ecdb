use vstd::prelude::*;

verus! {

/// Where a run of transactions stands.
#[derive(Clone, Copy, Debug, PartialEq, Eq)]
pub enum Phase {
    /// The next transaction waits for a fresh recency anchor.
    NeedAnchor,
    /// The next transaction was submitted with `anchor` and awaits the
    /// network's verdict.
    AwaitingConfirmation { anchor: [u8; 32] },
    /// Every transaction was confirmed.
    Finished,
    /// The network rejected a transaction; nothing more is submitted.
    Failed,
}

/// What the network reported.
#[derive(Clone, Copy, Debug, PartialEq, Eq)]
pub enum Event {
    AnchorFetched { anchor: [u8; 32] },
    Confirmed,
    Rejected,
}

/// What the caller must do next.
#[derive(Clone, Copy, Debug, PartialEq, Eq)]
pub enum Action {
    /// Fetch the latest recency anchor.
    FetchAnchor,
    /// Build and sign transaction `index` with `anchor`, submit it and wait
    /// for confirmation.
    Submit { index: usize, anchor: [u8; 32] },
    /// All transactions are confirmed.
    Finish,
    /// Report the rejection; the run is over.
    Abort,
    /// The event does not apply in this phase: nothing to do.
    Wait,
}

/// A run of `total` dependent transactions, submitted one at a time and in
/// order: transaction `i` is submitted only once transactions `0..i` are
/// confirmed, each with its own freshly fetched anchor.
#[derive(Clone, Copy, Debug, PartialEq, Eq)]
pub struct Session {
    pub total: usize,
    pub confirmed: usize,
    pub phase: Phase,
}

impl Session {
    pub open spec fn wf(&self) -> bool {
        match self.phase {
            Phase::Finished => self.confirmed == self.total,
            _ => self.confirmed < self.total,
        }
    }
}

pub open spec fn initial(total: usize) -> (Session, Action) {
    if total == 0 {
        (Session { total, confirmed: 0, phase: Phase::Finished }, Action::Finish)
    } else {
        (Session { total, confirmed: 0, phase: Phase::NeedAnchor }, Action::FetchAnchor)
    }
}

pub open spec fn transition(s: Session, e: Event) -> (Session, Action) {
    match (s.phase, e) {
        (Phase::NeedAnchor, Event::AnchorFetched { anchor }) => (
            Session { phase: Phase::AwaitingConfirmation { anchor }, ..s },
            Action::Submit { index: s.confirmed, anchor },
        ),
        (Phase::AwaitingConfirmation { .. }, Event::Confirmed) => {
            let done = (s.confirmed + 1) as usize;
            if done == s.total {
                (Session { confirmed: done, phase: Phase::Finished, ..s }, Action::Finish)
            } else {
                (Session { confirmed: done, phase: Phase::NeedAnchor, ..s }, Action::FetchAnchor)
            }
        },
        (Phase::AwaitingConfirmation { .. }, Event::Rejected) => (
            Session { phase: Phase::Failed, ..s },
            Action::Abort,
        ),
        _ => (s, Action::Wait),
    }
}

impl Session {
    /// A run of `total` transactions and its first action.
    pub fn start(total: usize) -> (r: (Session, Action))
        ensures
            r == initial(total),
            r.0.wf(),
    {
        if total == 0 {
            (Session { total, confirmed: 0, phase: Phase::Finished }, Action::Finish)
        } else {
            (Session { total, confirmed: 0, phase: Phase::NeedAnchor }, Action::FetchAnchor)
        }
    }

    /// Takes in what the network reported and says what to do next.
    pub fn step(&mut self, event: Event) -> (r: Action)
        requires
            old(self).wf(),
        ensures
            (*final(self), r) == transition(*old(self), event),
            final(self).wf(),
    {
        match (self.phase, event) {
            (Phase::NeedAnchor, Event::AnchorFetched { anchor }) => {
                self.phase = Phase::AwaitingConfirmation { anchor };
                Action::Submit { index: self.confirmed, anchor }
            },
            (Phase::AwaitingConfirmation { .. }, Event::Confirmed) => {
                self.confirmed = self.confirmed + 1;
                if self.confirmed == self.total {
                    self.phase = Phase::Finished;
                    Action::Finish
                } else {
                    self.phase = Phase::NeedAnchor;
                    Action::FetchAnchor
                }
            },
            (Phase::AwaitingConfirmation { .. }, Event::Rejected) => {
                self.phase = Phase::Failed;
                Action::Abort
            },
            _ => Action::Wait,
        }
    }
}

/// A transaction is submitted only with the anchor fetched just before, and
/// only once every transaction ahead of it is confirmed: a transaction that
/// depends on another (metadata on its mint) never goes out first.
pub proof fn submit_waits_for_earlier_confirmations(s: Session, e: Event)
    requires
        s.wf(),
    ensures
        transition(s, e).1 is Submit ==> {
            &&& s.phase is NeedAnchor
            &&& e is AnchorFetched
            &&& transition(s, e).1->Submit_index == s.confirmed
            &&& transition(s, e).1->Submit_anchor == e->AnchorFetched_anchor
            &&& s.confirmed < s.total
        },
        transition(s, e).0.confirmed == s.confirmed + (if s.phase is AwaitingConfirmation
            && e is Confirmed { 1int } else { 0int }),
{
}

/// A rejected transaction counts for nothing, and after a rejection the run
/// submits nothing more, whatever is reported.
pub proof fn rejection_is_final(s: Session, e: Event, later: Event)
    requires
        s.wf(),
        s.phase is AwaitingConfirmation,
        e is Rejected,
    ensures
        transition(s, e).0.confirmed == s.confirmed,
        transition(s, e).1 == Action::Abort,
        transition(transition(s, e).0, later) == (transition(s, e).0, Action::Wait),
{
}

/// Every step keeps a run well formed.
pub proof fn transition_keeps_wf(s: Session, e: Event)
    requires
        s.wf(),
    ensures
        transition(s, e).0.wf(),
        transition(s, e).0.total == s.total,
{
}

} // verus!
