//! Dragging the camera with a finger.
//!
//! The camera follows a finger from one touch sample to the next. A sample
//! that starts a touch has no sample before it to be followed from, and a
//! sample is followed only from the upper part of the screen, above a line
//! that the caller draws: what lies below is left to the controls there.

use vstd::prelude::*;
use crate::binary64::{less_than, lt};

verus! {

/// What a touch sample reports of its finger.
#[derive(Clone, Copy, Debug, PartialEq, Eq, Structural)]
pub enum TouchPhase {
    /// The finger has come down.
    Started,
    /// The finger has moved.
    Moved,
    /// The finger has left the screen.
    Ended,
    /// The system has given up following the finger.
    Canceled,
}

/// A place on the screen. Both coordinates are binary64 patterns; `y` grows
/// downwards.
#[derive(Clone, Copy, Debug, PartialEq, Eq, Structural)]
pub struct Position {
    pub x: u64,
    pub y: u64,
}

/// A stretch that the finger has covered between two samples.
#[derive(Clone, Copy, Debug, PartialEq, Eq, Structural)]
pub struct Drag {
    pub from: Position,
    pub to: Position,
}

/// Follows the finger from sample to sample.
#[derive(Clone, Copy, Debug, PartialEq, Eq, Structural)]
pub struct TouchCamera {
    /// Where the sample before was, if it belongs to the touch that goes on.
    pub last_position: Option<Position>,
}

/// The stretch that a sample adds, if any: from the sample before to this
/// one, unless this one starts a touch, there is none before, or the one
/// before is not above `line`.
pub open spec fn drag_of(
    last_position: Option<Position>,
    phase: TouchPhase,
    position: Position,
    line: u64,
) -> Option<Drag> {
    match last_position {
        Some(from) => if phase != TouchPhase::Started && lt(from.y, line) {
            Some(Drag { from, to: position })
        } else {
            None
        },
        None => None,
    }
}

/// A sample that starts a touch adds no stretch, whatever came before it.
pub proof fn lemma_touches_stay_apart(last_position: Option<Position>, position: Position, line: u64)
    ensures
        drag_of(last_position, TouchPhase::Started, position, line) is None,
{
}

/// Stretches join end to end: where a sample adds a stretch, it starts at the
/// sample before, and where that one added a stretch too, it starts where
/// that stretch ended.
pub proof fn lemma_drags_join(
    before: Option<Position>,
    first_phase: TouchPhase,
    first: Position,
    second_phase: TouchPhase,
    second: Position,
    line: u64,
)
    ensures
        drag_of(Some(first), second_phase, second, line) matches Some(later) ==> {
            &&& later.from == first
            &&& later.to == second
            &&& drag_of(before, first_phase, first, line) matches Some(earlier) ==> earlier.to
                == later.from
        },
{
}

impl TouchCamera {
    /// A camera that has seen no sample yet.
    pub fn new() -> (camera: Self)
        ensures
            camera.last_position is None,
    {
        TouchCamera { last_position: None }
    }

    /// Takes the next sample and says how far the camera is to be dragged for
    /// it. `line` is the y coordinate, as a binary64 pattern, above which a
    /// stretch must begin. Whatever the sample is, the next one is followed
    /// from it.
    pub fn touch(&mut self, phase: TouchPhase, position: Position, line: u64) -> (drag: Option<Drag>)
        ensures
            drag == drag_of(old(self).last_position, phase, position, line),
            final(self).last_position == Some(position),
    {
        if let TouchPhase::Started = phase {
            self.last_position = None;
        }
        let drag = match self.last_position {
            Some(from) => if less_than(from.y, line) {
                Some(Drag { from, to: position })
            } else {
                None
            },
            None => None,
        };
        self.last_position = Some(position);
        drag
    }
}

impl Default for TouchCamera {
    /// A camera that has seen no sample yet.
    fn default() -> (camera: Self)
        ensures
            camera.last_position is None,
    {
        TouchCamera::new()
    }
}

} // verus!
