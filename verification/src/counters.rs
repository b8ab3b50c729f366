//! The counter ring: five atomic counters of input events.
//!
//! An input hook adds one to a counter with a single relaxed fetch-add and
//! does nothing else. The poller takes what has gathered with a single relaxed
//! swap for each counter, so that no event is counted twice or lost.

use std::sync::atomic::{AtomicU64, Ordering};
use vstd::prelude::*;

verus! {

/// Message code with which a hook is told that an event is to be handled.
pub const HC_ACTION: i32 = 0;

/// Message: a key went down.
pub const WM_KEYDOWN: u32 = 0x0100;

/// Message: a system key went down.
pub const WM_SYSKEYDOWN: u32 = 0x0104;

/// Message: the left mouse button went down.
pub const WM_LBUTTONDOWN: u32 = 0x0201;

/// Message: the right mouse button went down.
pub const WM_RBUTTONDOWN: u32 = 0x0204;

/// Message: the middle mouse button went down.
pub const WM_MBUTTONDOWN: u32 = 0x0207;

/// Message: the mouse wheel turned.
pub const WM_MOUSEWHEEL: u32 = 0x020A;

/// The kinds of input that are counted.
#[derive(Debug, Clone, Copy, PartialEq, Eq, Structural)]
pub enum InputKind {
    Keystroke,
    LeftClick,
    RightClick,
    MiddleClick,
    Scroll,
}

/// The five counters. They are shared by reference between the input hooks
/// and the poller; no lock guards them.
#[derive(Debug)]
pub struct CounterRing {
    /// Keystrokes since the last flush.
    pub keystrokes: AtomicU64,
    /// Clicks of the left button since the last flush.
    pub left_clicks: AtomicU64,
    /// Clicks of the right button since the last flush.
    pub right_clicks: AtomicU64,
    /// Clicks of the middle button since the last flush.
    pub middle_clicks: AtomicU64,
    /// Scroll events since the last flush.
    pub scrolls: AtomicU64,
}

/// The kind of input that a keyboard hook was told of, if it is one that
/// counts: a key or a system key going down. Keys going up are not counted.
pub open spec fn keyboard_kind(code: i32, message: u32) -> Option<InputKind> {
    if code == HC_ACTION && (message == WM_KEYDOWN || message == WM_SYSKEYDOWN) {
        Some(InputKind::Keystroke)
    } else {
        None
    }
}

/// The kind of input that a mouse hook was told of, if it is one that counts:
/// a button going down or the wheel turning. Movement is not counted.
pub open spec fn mouse_kind(code: i32, message: u32) -> Option<InputKind> {
    if code != HC_ACTION {
        None
    } else if message == WM_LBUTTONDOWN {
        Some(InputKind::LeftClick)
    } else if message == WM_RBUTTONDOWN {
        Some(InputKind::RightClick)
    } else if message == WM_MBUTTONDOWN {
        Some(InputKind::MiddleClick)
    } else if message == WM_MOUSEWHEEL {
        Some(InputKind::Scroll)
    } else {
        None
    }
}

/// Tells which kind of input a keyboard hook was told of, if it counts.
pub fn keyboard_event_kind(code: i32, message: u32) -> (kind: Option<InputKind>)
    ensures
        kind == keyboard_kind(code, message),
{
    if code == HC_ACTION && (message == WM_KEYDOWN || message == WM_SYSKEYDOWN) {
        Some(InputKind::Keystroke)
    } else {
        None
    }
}

/// Tells which kind of input a mouse hook was told of, if it counts.
pub fn mouse_event_kind(code: i32, message: u32) -> (kind: Option<InputKind>)
    ensures
        kind == mouse_kind(code, message),
{
    if code != HC_ACTION {
        None
    } else if message == WM_LBUTTONDOWN {
        Some(InputKind::LeftClick)
    } else if message == WM_RBUTTONDOWN {
        Some(InputKind::RightClick)
    } else if message == WM_MBUTTONDOWN {
        Some(InputKind::MiddleClick)
    } else if message == WM_MOUSEWHEEL {
        Some(InputKind::Scroll)
    } else {
        None
    }
}

impl CounterRing {
    /// Five counters at zero.
    pub fn new() -> (ring: CounterRing) {
        CounterRing {
            keystrokes: AtomicU64::new(0),
            left_clicks: AtomicU64::new(0),
            right_clicks: AtomicU64::new(0),
            middle_clicks: AtomicU64::new(0),
            scrolls: AtomicU64::new(0),
        }
    }

    /// Adds one to the counter of `kind`: one relaxed fetch-add, no
    /// allocation, no lock. This is all an input hook does.
    pub fn increment(&self, kind: InputKind) {
        match kind {
            InputKind::Keystroke => {
                self.keystrokes.fetch_add(1, Ordering::Relaxed);
            },
            InputKind::LeftClick => {
                self.left_clicks.fetch_add(1, Ordering::Relaxed);
            },
            InputKind::RightClick => {
                self.right_clicks.fetch_add(1, Ordering::Relaxed);
            },
            InputKind::MiddleClick => {
                self.middle_clicks.fetch_add(1, Ordering::Relaxed);
            },
            InputKind::Scroll => {
                self.scrolls.fetch_add(1, Ordering::Relaxed);
            },
        }
    }

    /// Counts what a keyboard hook was told of, if it counts; returns whether
    /// it did.
    pub fn record_keyboard_event(&self, code: i32, message: u32) -> (counted: bool)
        ensures
            counted == keyboard_kind(code, message) is Some,
    {
        match keyboard_event_kind(code, message) {
            Some(kind) => {
                self.increment(kind);
                true
            },
            None => false,
        }
    }

    /// Counts what a mouse hook was told of, if it counts; returns whether it
    /// did.
    pub fn record_mouse_event(&self, code: i32, message: u32) -> (counted: bool)
        ensures
            counted == mouse_kind(code, message) is Some,
    {
        match mouse_event_kind(code, message) {
            Some(kind) => {
                self.increment(kind);
                true
            },
            None => false,
        }
    }
}

/// Takes the keystrokes counted since the last flush and leaves zero, in one
/// relaxed swap.
pub fn flush_keystroke_count(ring: &CounterRing) -> (count: u64) {
    ring.keystrokes.swap(0, Ordering::Relaxed)
}

/// Takes the clicks counted since the last flush, as left, right and middle,
/// and leaves zero, each in one relaxed swap.
pub fn flush_click_counts(ring: &CounterRing) -> (counts: (u64, u64, u64)) {
    (
        ring.left_clicks.swap(0, Ordering::Relaxed),
        ring.right_clicks.swap(0, Ordering::Relaxed),
        ring.middle_clicks.swap(0, Ordering::Relaxed),
    )
}

/// Takes the scroll events counted since the last flush and leaves zero, in
/// one relaxed swap.
pub fn flush_scroll_count(ring: &CounterRing) -> (count: u64) {
    ring.scrolls.swap(0, Ordering::Relaxed)
}

/// Reads the five counters without changing them: keystrokes, left, right and
/// middle clicks, scrolls.
pub fn peek_all_counts(ring: &CounterRing) -> (counts: (u64, u64, u64, u64, u64)) {
    (
        ring.keystrokes.load(Ordering::Relaxed),
        ring.left_clicks.load(Ordering::Relaxed),
        ring.right_clicks.load(Ordering::Relaxed),
        ring.middle_clicks.load(Ordering::Relaxed),
        ring.scrolls.load(Ordering::Relaxed),
    )
}

/// Sets the five counters to zero; what they held is dropped.
pub fn reset_all_counts(ring: &CounterRing) {
    ring.keystrokes.store(0, Ordering::Relaxed);
    ring.left_clicks.store(0, Ordering::Relaxed);
    ring.right_clicks.store(0, Ordering::Relaxed);
    ring.middle_clicks.store(0, Ordering::Relaxed);
    ring.scrolls.store(0, Ordering::Relaxed);
}

/// What happens to one counter: an event is counted, or the poller takes the
/// count and leaves zero.
pub enum CounterOp {
    Increment,
    Flush,
}

/// The value of a counter that started at zero after `ops`. A fetch-add
/// wraps round at the largest `u64`.
pub open spec fn counter_value(ops: Seq<CounterOp>) -> int
    decreases ops.len(),
{
    if ops.len() == 0 {
        0
    } else {
        match ops.last() {
            CounterOp::Increment => (counter_value(ops.drop_last()) + 1) % 0x1_0000_0000_0000_0000,
            CounterOp::Flush => 0,
        }
    }
}

/// The number of events counted in `ops`.
pub open spec fn increments(ops: Seq<CounterOp>) -> int
    decreases ops.len(),
{
    if ops.len() == 0 {
        0
    } else {
        match ops.last() {
            CounterOp::Increment => increments(ops.drop_last()) + 1,
            CounterOp::Flush => increments(ops.drop_last()),
        }
    }
}

/// The sum of the counts that the flushes in `ops` took.
pub open spec fn flushed_total(ops: Seq<CounterOp>) -> int
    decreases ops.len(),
{
    if ops.len() == 0 {
        0
    } else {
        match ops.last() {
            CounterOp::Increment => flushed_total(ops.drop_last()),
            CounterOp::Flush => flushed_total(ops.drop_last()) + counter_value(ops.drop_last()),
        }
    }
}

/// Nothing is counted twice and nothing is lost: as long as the counter has
/// not wrapped round, the events counted are those that the flushes took and
/// those that the counter still holds.
pub proof fn lemma_counter_conservation(ops: Seq<CounterOp>)
    requires
        increments(ops) <= u64::MAX,
    ensures
        increments(ops) == flushed_total(ops) + counter_value(ops),
        0 <= counter_value(ops) <= increments(ops),
        flushed_total(ops) >= 0,
    decreases ops.len(),
{
    if ops.len() > 0 {
        lemma_increments_grow(ops);
        lemma_counter_conservation(ops.drop_last());
    }
}

/// The number of events counted never shrinks as operations are added.
proof fn lemma_increments_grow(ops: Seq<CounterOp>)
    requires
        ops.len() > 0,
    ensures
        0 <= increments(ops.drop_last()) <= increments(ops),
    decreases ops.len(),
{
    if ops.drop_last().len() > 0 {
        lemma_increments_grow(ops.drop_last());
    }
}

} // verus!
