//! Pointer clicks and their classification into single, double and triple clicks.
use vstd::prelude::*;
use crate::geometry::Point;

verus! {

/// The longest time, in milliseconds, between two presses that still form one
/// multi-click.
pub const MULTI_CLICK_MS: u64 = 300;

/// How many presses in a row a click completes.
#[derive(Clone, Copy, Debug, PartialEq, Eq, Structural)]
pub enum ClickKind {
    Single,
    Double,
    Triple,
}

/// A recorded press: where and when it happened, and what kind of click it made.
#[derive(Clone, Copy, Debug, PartialEq, Eq, Structural)]
pub struct Click {
    pub position: Point,
    pub time_ms: u64,
    pub kind: ClickKind,
}

impl ClickKind {
    /// The kind that one more press in a row makes: a triple click is followed
    /// by a double one.
    pub open spec fn next_spec(self) -> ClickKind {
        match self {
            ClickKind::Single => ClickKind::Double,
            ClickKind::Double => ClickKind::Triple,
            ClickKind::Triple => ClickKind::Double,
        }
    }

    /// The kind that one more press in a row makes.
    pub fn next(self) -> (r: ClickKind)
        ensures
            r == self.next_spec(),
    {
        match self {
            ClickKind::Single => ClickKind::Double,
            ClickKind::Double => ClickKind::Triple,
            ClickKind::Triple => ClickKind::Double,
        }
    }
}

impl Click {
    /// Whether a press at `position` at `time_ms` continues this click: same
    /// place, not earlier, and soon enough.
    pub open spec fn continues(self, position: Point, time_ms: u64) -> bool {
        &&& self.position == position
        &&& self.time_ms <= time_ms
        &&& time_ms - self.time_ms <= MULTI_CLICK_MS
    }

    /// The click that a press at `position` at `time_ms` makes, after `previous`.
    pub open spec fn new_spec(position: Point, time_ms: u64, previous: Option<Click>) -> Click {
        Click {
            position,
            time_ms,
            kind: match previous {
                Some(p) => if p.continues(position, time_ms) {
                    p.kind.next_spec()
                } else {
                    ClickKind::Single
                },
                None => ClickKind::Single,
            },
        }
    }

    /// Classifies a press at `position` at `time_ms`, given the previous click.
    pub fn new(position: Point, time_ms: u64, previous: Option<Click>) -> (r: Click)
        ensures
            r == Click::new_spec(position, time_ms, previous),
    {
        let kind = match previous {
            Some(p) => {
                if p.position == position && p.time_ms <= time_ms && time_ms - p.time_ms
                    <= MULTI_CLICK_MS {
                    p.kind.next()
                } else {
                    ClickKind::Single
                }
            },
            None => ClickKind::Single,
        };
        Click { position, time_ms, kind }
    }

    /// The kind of click.
    pub fn kind(&self) -> (r: ClickKind)
        ensures
            r == self.kind,
    {
        self.kind
    }
}

} // verus!
