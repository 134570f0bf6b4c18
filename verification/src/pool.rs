//! The figures of the connection pool.
use vstd::prelude::*;

verus! {

/// What happened to a connection of the pool.
#[derive(Clone, Copy, Debug, PartialEq, Eq, Structural)]
pub enum PoolEvent {
    Created,
    Closed,
    CheckedOut,
    CheckedIn,
    Other,
}

/// By how much an event changes the figures of the pool.
#[derive(Clone, Copy, Debug, PartialEq, Eq, Structural)]
pub struct PoolChange {
    /// The change in the number of open connections.
    pub size: i64,
    /// The change in the number of connections in use.
    pub checked_out: i64,
}

/// By how much an event changes the figures of the pool.
pub open spec fn change_of(event: PoolEvent) -> PoolChange {
    match event {
        PoolEvent::Created => PoolChange { size: 1, checked_out: 0 },
        PoolEvent::Closed => PoolChange { size: -1i64, checked_out: 0 },
        PoolEvent::CheckedOut => PoolChange { size: 0, checked_out: 1 },
        PoolEvent::CheckedIn => PoolChange { size: 0, checked_out: -1i64 },
        PoolEvent::Other => PoolChange { size: 0, checked_out: 0 },
    }
}

/// By how much an event changes the figures of the pool.
pub fn pool_change(event: PoolEvent) -> (change: PoolChange)
    ensures
        change == change_of(event),
{
    match event {
        PoolEvent::Created => PoolChange { size: 1, checked_out: 0 },
        PoolEvent::Closed => PoolChange { size: -1, checked_out: 0 },
        PoolEvent::CheckedOut => PoolChange { size: 0, checked_out: 1 },
        PoolEvent::CheckedIn => PoolChange { size: 0, checked_out: -1 },
        PoolEvent::Other => PoolChange { size: 0, checked_out: 0 },
    }
}

/// The open connections after several events, if there were none before.
pub open spec fn pool_size(events: Seq<PoolEvent>) -> int
    decreases events.len(),
{
    if events.len() == 0 {
        0
    } else {
        pool_size(events.drop_last()) + change_of(events.last()).size
    }
}

/// The connections in use after several events, if there were none before.
pub open spec fn pool_checked_out(events: Seq<PoolEvent>) -> int
    decreases events.len(),
{
    if events.len() == 0 {
        0
    } else {
        pool_checked_out(events.drop_last()) + change_of(events.last()).checked_out
    }
}

/// How often an event occurs.
pub open spec fn occurrences(events: Seq<PoolEvent>, event: PoolEvent) -> int
    decreases events.len(),
{
    if events.len() == 0 {
        0
    } else {
        occurrences(events.drop_last(), event) + if events.last() == event {
            1int
        } else {
            0int
        }
    }
}

/// The figures count what they should: the connections created and not closed, and those checked out
/// and not checked in.
pub proof fn pool_figures_count(events: Seq<PoolEvent>)
    ensures
        pool_size(events) == occurrences(events, PoolEvent::Created) - occurrences(
            events,
            PoolEvent::Closed,
        ),
        pool_checked_out(events) == occurrences(events, PoolEvent::CheckedOut) - occurrences(
            events,
            PoolEvent::CheckedIn,
        ),
    decreases events.len(),
{
    if events.len() > 0 {
        pool_figures_count(events.drop_last());
    }
}

} // verus!
