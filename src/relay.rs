use vstd::prelude::*;

use crate::event::{DevnetEvent, LogLevel};

verus! {

/// The process logger's channel that a log record is written to.
#[derive(Debug, Clone, Copy, PartialEq, Eq, Structural)]
pub enum LogRoute {
    Debug,
    Info,
    Warn,
    Error,
}

/// What the headless relay loop must do after reading one event from the bus.
/// `M` is the mining control handle that `BootCompleted` carried.
#[derive(Debug)]
pub enum RelayAction<M> {
    /// Write the message to the process logger on the given route.
    Log(LogRoute, String),
    /// Send `Start` through the handle.
    StartMining(M),
    /// Nothing to do; keep listening.
    Continue,
    /// Stop listening; the run fails with this message.
    Fail(String),
    /// Stop listening; the run succeeds.
    Finish,
}

/// State of the headless relay loop: the configuration it reacts to and what
/// it has seen so far.
#[derive(Debug, Clone, Copy, PartialEq, Eq, Structural)]
pub struct HeadlessRelay {
    pub automining: bool,
    pub boot_handled: bool,
    pub finished: bool,
}

pub open spec fn route_of(level: LogLevel) -> LogRoute {
    match level {
        LogLevel::Debug => LogRoute::Debug,
        LogLevel::Info | LogLevel::Success => LogRoute::Info,
        LogLevel::Warning => LogRoute::Warn,
        LogLevel::Error => LogRoute::Error,
    }
}

/// The action the relay takes on `e` in state `s`.
pub open spec fn relay_action<M>(s: HeadlessRelay, e: DevnetEvent<M>) -> RelayAction<M> {
    if s.finished {
        RelayAction::Continue
    } else {
        match e {
            DevnetEvent::Log(l) => RelayAction::Log(route_of(l.level), l.message),
            DevnetEvent::BootCompleted(h) => if s.automining && !s.boot_handled {
                RelayAction::StartMining(h)
            } else {
                RelayAction::Continue
            },
            DevnetEvent::FatalError(m) => RelayAction::Fail(m),
            DevnetEvent::Terminate => RelayAction::Finish,
        }
    }
}

/// The relay's state after reading `e` in state `s`.
pub open spec fn relay_next<M>(s: HeadlessRelay, e: DevnetEvent<M>) -> HeadlessRelay {
    if s.finished {
        s
    } else {
        match e {
            DevnetEvent::Log(_) => s,
            DevnetEvent::BootCompleted(_) => HeadlessRelay {
                automining: s.automining,
                boot_handled: true,
                finished: false,
            },
            DevnetEvent::FatalError(_) | DevnetEvent::Terminate => HeadlessRelay {
                automining: s.automining,
                boot_handled: s.boot_handled,
                finished: true,
            },
        }
    }
}

/// The actions the relay takes, one per event, when fed `events` from state `s`.
pub open spec fn relay_actions<M>(s: HeadlessRelay, events: Seq<DevnetEvent<M>>) -> Seq<
    RelayAction<M>,
>
    decreases events.len(),
{
    if events.len() == 0 {
        seq![]
    } else {
        seq![relay_action(s, events[0])] + relay_actions(relay_next(s, events[0]), events.drop_first())
    }
}

/// An action after which the loop stops listening.
pub open spec fn is_ending<M>(a: RelayAction<M>) -> bool {
    a is Fail || a is Finish
}

/// The ending action that a terminal event brings about.
pub open spec fn ending_for<M>(e: DevnetEvent<M>) -> RelayAction<M> {
    match e {
        DevnetEvent::FatalError(m) => RelayAction::Fail(m),
        _ => RelayAction::Finish,
    }
}

pub fn log_route(level: LogLevel) -> (r: LogRoute)
    ensures
        r == route_of(level),
{
    match level {
        LogLevel::Debug => LogRoute::Debug,
        LogLevel::Info | LogLevel::Success => LogRoute::Info,
        LogLevel::Warning => LogRoute::Warn,
        LogLevel::Error => LogRoute::Error,
    }
}

impl HeadlessRelay {
    pub open spec fn new_spec(automining: bool) -> HeadlessRelay {
        HeadlessRelay { automining, boot_handled: false, finished: false }
    }

    pub fn new(automining: bool) -> (r: HeadlessRelay)
        ensures
            r == HeadlessRelay::new_spec(automining),
    {
        HeadlessRelay { automining, boot_handled: false, finished: false }
    }

    /// Reacts to one event from the bus. Once a `FatalError` or `Terminate`
    /// has been seen the relay is finished and every later event is ignored.
    pub fn step<M>(&mut self, event: DevnetEvent<M>) -> (r: RelayAction<M>)
        ensures
            r == relay_action(*old(self), event),
            *final(self) == relay_next(*old(self), event),
    {
        if self.finished {
            return RelayAction::Continue;
        }
        match event {
            DevnetEvent::Log(l) => RelayAction::Log(log_route(l.level), l.message),
            DevnetEvent::BootCompleted(h) => {
                let first = !self.boot_handled;
                self.boot_handled = true;
                if self.automining && first {
                    RelayAction::StartMining(h)
                } else {
                    RelayAction::Continue
                }
            },
            DevnetEvent::FatalError(m) => {
                self.finished = true;
                RelayAction::Fail(m)
            },
            DevnetEvent::Terminate => {
                self.finished = true;
                RelayAction::Finish
            },
        }
    }
}

/// Feeding a relay one event per action: there are as many actions as events.
pub proof fn lemma_relay_actions_len<M>(s: HeadlessRelay, events: Seq<DevnetEvent<M>>)
    ensures
        relay_actions(s, events).len() == events.len(),
    decreases events.len(),
{
    if events.len() > 0 {
        lemma_relay_actions_len(relay_next(s, events[0]), events.drop_first());
    }
}

/// A finished relay ignores whatever is still queued on the bus.
pub proof fn lemma_finished_relay_ignores_events<M>(s: HeadlessRelay, events: Seq<DevnetEvent<M>>)
    requires
        s.finished,
    ensures
        forall|j: int| 0 <= j < events.len() ==> #[trigger] relay_actions(s, events)[j] is Continue,
    decreases events.len(),
{
    lemma_relay_actions_len(s, events);
    if events.len() > 0 {
        let tail = events.drop_first();
        lemma_finished_relay_ignores_events(s, tail);
        lemma_relay_actions_len(s, tail);
        assert forall|j: int| 0 <= j < events.len() implies #[trigger] relay_actions(s, events)[j] is Continue by {
            if j > 0 {
                assert(relay_actions(s, events)[j] == relay_actions(s, tail)[j - 1]);
            }
        }
    }
}

/// Without a `FatalError` or `Terminate` the relay keeps listening: no action
/// ends the loop and the relay is still unfinished afterwards.
pub proof fn lemma_relay_keeps_listening<M>(s: HeadlessRelay, events: Seq<DevnetEvent<M>>)
    requires
        !s.finished,
        forall|j: int| 0 <= j < events.len() ==> !(#[trigger] events[j]).is_terminal(),
    ensures
        forall|j: int| 0 <= j < events.len() ==> !is_ending(#[trigger] relay_actions(s, events)[j]),
    decreases events.len(),
{
    lemma_relay_actions_len(s, events);
    if events.len() > 0 {
        let tail = events.drop_first();
        let n = relay_next(s, events[0]);
        assert(!events[0].is_terminal());
        assert forall|j: int| 0 <= j < tail.len() implies !(#[trigger] tail[j]).is_terminal() by {
            assert(tail[j] == events[j + 1]);
        }
        lemma_relay_keeps_listening(n, tail);
        assert forall|j: int| 0 <= j < events.len() implies !is_ending(#[trigger] relay_actions(s, events)[j]) by {
            if j > 0 {
                assert(relay_actions(s, events)[j] == relay_actions(n, tail)[j - 1]);
            }
        }
    }
}

/// The relay stops at the first `FatalError` or `Terminate` it reads, and only
/// there: that event yields the one ending action (`Fail` with the error's
/// message, or `Finish`), and every event after it is ignored.
pub proof fn lemma_relay_ends_at_first_terminal<M>(
    s: HeadlessRelay,
    events: Seq<DevnetEvent<M>>,
    k: int,
)
    requires
        !s.finished,
        0 <= k < events.len(),
        events[k].is_terminal(),
        forall|j: int| 0 <= j < k ==> !(#[trigger] events[j]).is_terminal(),
    ensures
        relay_actions(s, events).len() == events.len(),
        relay_actions(s, events)[k] == ending_for(events[k]),
        forall|j: int|
            0 <= j < events.len() && j != k ==> !is_ending(#[trigger] relay_actions(s, events)[j]),
        forall|j: int| k < j < events.len() ==> #[trigger] relay_actions(s, events)[j] is Continue,
    decreases events.len(),
{
    lemma_relay_actions_len(s, events);
    let tail = events.drop_first();
    let n = relay_next(s, events[0]);
    lemma_relay_actions_len(n, tail);
    if k == 0 {
        assert(n.finished);
        lemma_finished_relay_ignores_events(n, tail);
        assert forall|j: int| 0 < j < events.len() implies #[trigger] relay_actions(s, events)[j] is Continue by {
            assert(relay_actions(s, events)[j] == relay_actions(n, tail)[j - 1]);
        }
    } else {
        assert(!events[0].is_terminal());
        assert forall|j: int| 0 <= j < k - 1 implies !(#[trigger] tail[j]).is_terminal() by {
            assert(tail[j] == events[j + 1]);
        }
        lemma_relay_ends_at_first_terminal(n, tail, k - 1);
        assert forall|j: int| 0 < j < events.len() implies #[trigger] relay_actions(s, events)[j] == relay_actions(n, tail)[j - 1] by {}
        assert(relay_actions(s, events)[k] == relay_actions(n, tail)[k - 1]);
    }
}

/// A relay that has already handled a boot, or does not automine, never
/// starts mining.
pub proof fn lemma_no_mining_start_after_boot<M>(s: HeadlessRelay, events: Seq<DevnetEvent<M>>)
    requires
        s.boot_handled || !s.automining,
    ensures
        forall|j: int| 0 <= j < events.len() ==> !(#[trigger] relay_actions(s, events)[j] is StartMining),
    decreases events.len(),
{
    lemma_relay_actions_len(s, events);
    if events.len() > 0 {
        let tail = events.drop_first();
        let n = relay_next(s, events[0]);
        lemma_no_mining_start_after_boot(n, tail);
        assert forall|j: int| 0 <= j < events.len() implies !(#[trigger] relay_actions(s, events)[j] is StartMining) by {
            if j > 0 {
                assert(relay_actions(s, events)[j] == relay_actions(n, tail)[j - 1]);
            }
        }
    }
}

/// `BootCompleted` never ends the loop: the relay keeps listening, and the
/// event yields `StartMining` with the handle it carried exactly when the
/// relay automines and has not handled a boot yet.
pub proof fn lemma_boot_keeps_listening<M>(s: HeadlessRelay, h: M)
    requires
        !s.finished,
    ensures
        !relay_next(s, DevnetEvent::BootCompleted(h)).finished,
        relay_next(s, DevnetEvent::BootCompleted(h)).boot_handled,
        !is_ending(relay_action(s, DevnetEvent::BootCompleted(h))),
        (relay_action(s, DevnetEvent::BootCompleted(h)) == RelayAction::StartMining(h)) <==> (
        s.automining && !s.boot_handled),
        !(relay_action(s, DevnetEvent::BootCompleted(h)) == RelayAction::StartMining(h)) ==> relay_action(
            s,
            DevnetEvent::BootCompleted(h),
        ) is Continue,
{
}

/// Over a whole session, `BootCompleted` starts mining at most once.
pub proof fn lemma_mining_started_at_most_once<M>(s: HeadlessRelay, events: Seq<DevnetEvent<M>>)
    ensures
        forall|i: int, j: int|
            0 <= i < events.len() && 0 <= j < events.len() && (#[trigger] relay_actions(s, events)[i] is StartMining)
                && (#[trigger] relay_actions(s, events)[j] is StartMining) ==> i == j,
    decreases events.len(),
{
    lemma_relay_actions_len(s, events);
    if events.len() > 0 {
        let acts = relay_actions(s, events);
        let tail = events.drop_first();
        let n = relay_next(s, events[0]);
        lemma_mining_started_at_most_once(n, tail);
        lemma_relay_actions_len(n, tail);
        assert forall|j: int| 0 < j < events.len() implies #[trigger] acts[j] == relay_actions(n, tail)[j - 1] by {}
        if acts[0] is StartMining {
            assert(n.boot_handled);
            lemma_no_mining_start_after_boot(n, tail);
        }
    }
}

/// The first `BootCompleted` that the relay reads before the loop ends starts
/// mining exactly when automining is enabled.
pub proof fn lemma_boot_starts_mining_iff_automining<M>(
    automining: bool,
    events: Seq<DevnetEvent<M>>,
    k: int,
)
    requires
        0 <= k < events.len(),
        events[k] is BootCompleted,
        forall|j: int| 0 <= j < k ==> !(#[trigger] events[j]).is_terminal() && !(events[j] is BootCompleted),
    ensures
        relay_actions(HeadlessRelay::new_spec(automining), events)[k] is StartMining <==> automining,
{
    lemma_first_boot_reached(HeadlessRelay::new_spec(automining), events, k);
}

proof fn lemma_first_boot_reached<M>(s: HeadlessRelay, events: Seq<DevnetEvent<M>>, k: int)
    requires
        !s.finished,
        !s.boot_handled,
        0 <= k < events.len(),
        events[k] is BootCompleted,
        forall|j: int| 0 <= j < k ==> !(#[trigger] events[j]).is_terminal() && !(events[j] is BootCompleted),
    ensures
        relay_actions(s, events)[k] is StartMining <==> s.automining,
    decreases events.len(),
{
    lemma_relay_actions_len(s, events);
    if k > 0 {
        let tail = events.drop_first();
        let n = relay_next(s, events[0]);
        assert(!events[0].is_terminal() && !(events[0] is BootCompleted));
        assert forall|j: int| 0 <= j < k - 1 implies !(#[trigger] tail[j]).is_terminal() && !(tail[j] is BootCompleted) by {
            assert(tail[j] == events[j + 1]);
        }
        lemma_first_boot_reached(n, tail, k - 1);
        assert(relay_actions(s, events)[k] == relay_actions(n, tail)[k - 1]);
    }
}

} // verus!
