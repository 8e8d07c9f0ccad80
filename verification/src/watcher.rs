//! The watcher's decisions: which file events start a reload.
//!
//! The program polls the watch on a timer. Each event it reads is handed to
//! [`WatchState::on_event`]; where the answer is [`WatchAction::Reload`], the
//! program waits for the settle delay, reloads the panel and reports back
//! through [`WatchState::on_reloaded`].

use vstd::prelude::*;

verus! {

/// `inotify::EventMask`, carried through verified code without looking inside.
#[verifier::external_type_specification]
#[verifier::external_body]
pub struct ExEventMask(inotify::EventMask);

/// The flags that a mask holds, one bit of the result for each flag: the
/// bits that `inotify::EventMask::bits` returns for it.
pub uninterp spec fn mask_bits(mask: inotify::EventMask) -> u32;

/// The bit of the flag that marks a modified file.
pub const MODIFY_BIT: u32 = 0x0000_0002;

/// Milliseconds between two polls of the watch.
pub const POLL_MILLIS: u64 = 1000;

/// Milliseconds to let a modified file settle before it is read again.
pub const SETTLE_MILLIS: u64 = 100;

/// Bytes of the buffer that one poll reads events into.
pub const EVENT_BUFFER_LEN: usize = 4096;

/// Hands out the constant `inotify::EventMask::MODIFY`.
///
/// Trusted: the constant holds one flag, whose bit is `IN_MODIFY`.
#[verifier::external_body]
pub(crate) fn modify_mask() -> (mask: inotify::EventMask)
    ensures
        mask_bits(mask) == MODIFY_BIT,
{
    inotify::EventMask::MODIFY
}

/// Calls `inotify::EventMask::contains`.
///
/// Trusted: the call says whether every flag of `other` is a flag of `mask`.
#[verifier::external_body]
pub(crate) fn mask_contains(mask: &inotify::EventMask, other: inotify::EventMask) -> (all: bool)
    ensures
        all == (mask_bits(*mask) & mask_bits(other) == mask_bits(other)),
{
    mask.contains(other)
}

/// Whether a mask carries the flag of a modified file.
pub open spec fn carries_modify(mask: inotify::EventMask) -> bool {
    mask_bits(mask) & MODIFY_BIT == MODIFY_BIT
}

/// Tells whether an event's mask carries the flag of a modified file.
pub fn is_modify(mask: &inotify::EventMask) -> (modified: bool)
    ensures
        modified == carries_modify(*mask),
{
    mask_contains(mask, modify_mask())
}

/// Where the watcher stands.
#[derive(Clone, Copy, Debug, PartialEq, Eq, Structural)]
pub enum WatchState {
    /// Waiting for the file to change.
    Idle,
    /// A reload is under way.
    Reloading,
}

/// What the program does next.
#[derive(Clone, Copy, Debug, PartialEq, Eq, Structural)]
pub enum WatchAction {
    /// Nothing: go on waiting.
    Wait,
    /// Let the file settle for so many milliseconds, then load the source
    /// and rebuild the panel.
    Reload { settle_millis: u64 },
}

/// The watcher's step on a file event. An event that carries the modify flag
/// starts a reload after the settle delay, whatever came before it: two such
/// events give two reloads. Any other event changes nothing.
pub open spec fn event_step(state: WatchState, mask: inotify::EventMask) -> (
    WatchState,
    WatchAction,
) {
    if carries_modify(mask) {
        (WatchState::Reloading, WatchAction::Reload { settle_millis: SETTLE_MILLIS })
    } else {
        (state, WatchAction::Wait)
    }
}

impl WatchState {
    /// Decides what a file event leads to.
    pub fn on_event(self, mask: &inotify::EventMask) -> (next: (WatchState, WatchAction))
        ensures
            next == event_step(self, *mask),
    {
        if is_modify(mask) {
            (WatchState::Reloading, WatchAction::Reload { settle_millis: SETTLE_MILLIS })
        } else {
            (self, WatchAction::Wait)
        }
    }

    /// The step when a reload is complete: the watcher is idle again.
    pub fn on_reloaded(self) -> (next: WatchState)
        ensures
            next == WatchState::Idle,
    {
        WatchState::Idle
    }
}

/// The watcher's walk through the events of one poll, in their order, each
/// reload complete before the next event is looked at: the state it ends in
/// and the number of reloads it starts.
pub open spec fn poll_walk(state: WatchState, masks: Seq<inotify::EventMask>) -> (WatchState, nat)
    decreases masks.len(),
{
    if masks.len() == 0 {
        (state, 0)
    } else {
        let (before, reloads) = poll_walk(state, masks.drop_last());
        let (next, action) = event_step(before, masks.last());
        match action {
            WatchAction::Reload { .. } => (WatchState::Idle, reloads + 1),
            WatchAction::Wait => (next, reloads),
        }
    }
}

/// One poll starts one reload for each of its events that carries the modify
/// flag: no event is dropped and none is merged with another. A watcher that
/// was idle before the poll is idle after it.
pub proof fn lemma_poll_reloads_once_per_modify(state: WatchState, masks: Seq<inotify::EventMask>)
    ensures
        poll_walk(state, masks).1 == masks.filter(
            |mask: inotify::EventMask| carries_modify(mask),
        ).len(),
        state == WatchState::Idle ==> poll_walk(state, masks).0 == WatchState::Idle,
    decreases masks.len(),
{
    reveal(Seq::filter);
    if masks.len() > 0 {
        lemma_poll_reloads_once_per_modify(state, masks.drop_last());
    }
}

} // verus!
