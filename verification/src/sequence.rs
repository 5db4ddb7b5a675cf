//! Reading a sequence that must hold an exact number of elements.
//!
//! A position is written as the three scalars `x, y, z`, a rotation as the
//! two scalars `yaw, pitch`, each as an ordered sequence without field
//! names. The source of such a sequence hands its elements out one at a
//! time, and may say beforehand how many it holds. The reader here counts
//! what arrives and decides after every event whether to go on, to accept or
//! to reject; the scalars themselves never pass through it.

use vstd::prelude::*;

verus! {

/// The number of scalars that a position is written as.
pub const POSITION_LEN: usize = 3;

/// The number of scalars that a rotation is written as.
pub const ROTATION_LEN: usize = 2;

/// A sequence did not hold exactly the number of elements that was expected.
/// `found` is the number that the source announced or handed out; where it
/// handed out more than expected, it is one more than `expected`: the
/// reader stops at the first element too many.
#[derive(Debug, Clone, Copy, PartialEq, Eq, Structural)]
pub struct SequenceLengthMismatch {
    pub expected: usize,
    pub found: usize,
}

/// How far a sequence has been read: of `expected` elements, `taken` have
/// arrived.
pub struct Progress {
    pub expected: nat,
    pub taken: nat,
}

/// What the source of a sequence reports when it is asked for its next
/// element.
#[derive(Debug, Clone, Copy, PartialEq, Eq, Structural)]
pub enum Event {
    /// It handed out another element.
    Element,
    /// It has no more elements.
    End,
}

/// What follows an event, over the progress made.
pub enum Turn {
    /// The element was taken; the reading goes on from the new progress.
    Continue(Progress),
    /// The sequence ended with exactly the expected number of elements.
    Accept,
    /// The sequence is too short or too long.
    Reject(SequenceLengthMismatch),
}

impl Progress {
    /// The mismatch that is reported when `found` elements were counted.
    pub open spec fn mismatch(self, found: nat) -> SequenceLengthMismatch {
        SequenceLengthMismatch { expected: self.expected as usize, found: found as usize }
    }

    /// What follows an event. An element is taken while the sequence is
    /// short of its expected length, and rejected as one too many once it is
    /// full. The end is accepted where the sequence is full, and rejected
    /// with the number taken where it is short.
    pub open spec fn step(self, event: Event) -> Turn {
        match event {
            Event::Element => if self.taken < self.expected {
                Turn::Continue(Progress { expected: self.expected, taken: self.taken + 1 })
            } else {
                Turn::Reject(self.mismatch(self.expected + 1))
            },
            Event::End => if self.taken == self.expected {
                Turn::Accept
            } else {
                Turn::Reject(self.mismatch(self.taken))
            },
        }
    }

    /// What the reader comes to on a source that still holds `available`
    /// elements: it takes them one by one and then meets the end, unless an
    /// element is rejected before that. `None` stands for acceptance.
    pub open spec fn read_through(self, available: nat) -> Option<SequenceLengthMismatch>
        decreases available,
    {
        if available == 0 {
            match self.step(Event::End) {
                Turn::Reject(mismatch) => Some(mismatch),
                _ => None,
            }
        } else {
            match self.step(Event::Element) {
                Turn::Continue(next) => next.read_through((available - 1) as nat),
                Turn::Reject(mismatch) => Some(mismatch),
                Turn::Accept => None,
            }
        }
    }
}

/// Whether an announced length lets the reading begin: an absent
/// announcement does, and so does one that equals the expected length.
pub open spec fn hint_agrees(expected: usize, hint: Option<usize>) -> bool {
    match hint {
        None => true,
        Some(announced) => announced == expected,
    }
}

/// What reading a whole sequence must come to, said at once: a sequence is
/// accepted exactly when its announced length, if any, and the number of
/// elements that it really holds both equal the expected length. `None`
/// stands for acceptance.
pub open spec fn verdict(expected: usize, hint: Option<usize>, available: nat) -> Option<
    SequenceLengthMismatch,
> {
    if !hint_agrees(expected, hint) {
        Some(SequenceLengthMismatch { expected, found: hint->0 })
    } else if available < expected {
        Some(SequenceLengthMismatch { expected, found: available as usize })
    } else if available > expected {
        Some(SequenceLengthMismatch { expected, found: (expected + 1) as usize })
    } else {
        None
    }
}

/// Reading from any point on comes to what the count of elements says: too
/// few are reported with their number, too many as one more than expected.
pub proof fn lemma_read_through(progress: Progress, available: nat)
    requires
        progress.taken <= progress.expected,
    ensures
        progress.read_through(available) == if progress.taken + available < progress.expected {
            Some(progress.mismatch(progress.taken + available))
        } else if progress.taken + available > progress.expected {
            Some(progress.mismatch(progress.expected + 1))
        } else {
            None
        },
    decreases available,
{
    if available > 0 && progress.taken < progress.expected {
        let next = Progress { expected: progress.expected, taken: progress.taken + 1 };
        lemma_read_through(next, (available - 1) as nat);
    }
}

/// What the reader decides after an event.
#[derive(Debug)]
pub enum Decision {
    /// The element was taken; ask the source for the next one.
    Continue(SequenceReader),
    /// The sequence ended with exactly the expected number of elements.
    Accept,
    /// The sequence is too short or too long.
    Reject(SequenceLengthMismatch),
}

impl View for Decision {
    type V = Turn;

    open spec fn view(&self) -> Turn {
        match self {
            Decision::Continue(reader) => Turn::Continue(reader@),
            Decision::Accept => Turn::Accept,
            Decision::Reject(mismatch) => Turn::Reject(*mismatch),
        }
    }
}

/// The reader of one sequence. It holds the expected length and the number
/// of elements taken so far, which never exceeds the expected length.
#[derive(Debug)]
pub struct SequenceReader {
    expected: usize,
    taken: usize,
}

impl View for SequenceReader {
    type V = Progress;

    closed spec fn view(&self) -> Progress {
        Progress { expected: self.expected as nat, taken: self.taken as nat }
    }
}

impl SequenceReader {
    #[verifier::type_invariant]
    spec fn well_formed(&self) -> bool {
        self.taken <= self.expected < usize::MAX
    }

    /// Begins to read a sequence of `expected` elements from a source that
    /// announces `hint` elements. An announcement that differs from the
    /// expected length is rejected at once; an absent one is not held
    /// against the source.
    fn start(expected: usize, hint: Option<usize>) -> (begun: Result<
        SequenceReader,
        SequenceLengthMismatch,
    >)
        requires
            expected < usize::MAX,
        ensures
            match begun {
                Ok(reader) => hint_agrees(expected, hint) && reader@ == (Progress {
                    expected: expected as nat,
                    taken: 0,
                }),
                Err(mismatch) => !hint_agrees(expected, hint) && mismatch == (
                    SequenceLengthMismatch { expected, found: hint->0 }),
            },
    {
        match hint {
            Some(announced) if announced != expected => Err(
                SequenceLengthMismatch { expected, found: announced },
            ),
            _ => Ok(SequenceReader { expected, taken: 0 }),
        }
    }

    /// Begins to read a position.
    pub fn position(hint: Option<usize>) -> (begun: Result<SequenceReader, SequenceLengthMismatch>)
        ensures
            match begun {
                Ok(reader) => hint_agrees(POSITION_LEN, hint) && reader@ == (Progress {
                    expected: POSITION_LEN as nat,
                    taken: 0,
                }),
                Err(mismatch) => !hint_agrees(POSITION_LEN, hint) && mismatch == (
                    SequenceLengthMismatch { expected: POSITION_LEN, found: hint->0 }),
            },
    {
        Self::start(POSITION_LEN, hint)
    }

    /// Begins to read a rotation.
    pub fn rotation(hint: Option<usize>) -> (begun: Result<SequenceReader, SequenceLengthMismatch>)
        ensures
            match begun {
                Ok(reader) => hint_agrees(ROTATION_LEN, hint) && reader@ == (Progress {
                    expected: ROTATION_LEN as nat,
                    taken: 0,
                }),
                Err(mismatch) => !hint_agrees(ROTATION_LEN, hint) && mismatch == (
                    SequenceLengthMismatch { expected: ROTATION_LEN, found: hint->0 }),
            },
    {
        Self::start(ROTATION_LEN, hint)
    }

    /// The number of elements taken so far, which is also the place of the
    /// element that arrives next.
    pub fn taken(&self) -> (count: usize)
        ensures
            count == self@.taken,
    {
        self.taken
    }

    /// The number of elements that the sequence must hold.
    pub fn expected(&self) -> (count: usize)
        ensures
            count == self@.expected,
    {
        self.expected
    }

    /// Takes one event from the source and decides what follows. An element
    /// is taken while the sequence is short and rejected once it is full;
    /// the end is accepted once the sequence is full and rejected while it
    /// is short.
    pub fn step(self, event: Event) -> (decision: Decision)
        ensures
            decision@ == self@.step(event),
    {
        proof {
            use_type_invariant(&self);
        }
        match event {
            Event::Element => {
                if self.taken < self.expected {
                    Decision::Continue(
                        SequenceReader { expected: self.expected, taken: self.taken + 1 },
                    )
                } else {
                    Decision::Reject(
                        SequenceLengthMismatch {
                            expected: self.expected,
                            found: self.expected + 1,
                        },
                    )
                }
            },
            Event::End => {
                if self.taken == self.expected {
                    Decision::Accept
                } else {
                    Decision::Reject(
                        SequenceLengthMismatch { expected: self.expected, found: self.taken },
                    )
                }
            },
        }
    }
}

/// Reading a whole sequence comes to the verdict on it: the reader accepts
/// a source exactly when its announced length, if it announces one, and the
/// number of elements that it hands out both equal the expected length.
pub proof fn lemma_reading_gives_verdict(expected: usize, hint: Option<usize>, available: nat)
    requires
        expected < usize::MAX,
    ensures
        verdict(expected, hint, available) == if hint_agrees(expected, hint) {
            (Progress { expected: expected as nat, taken: 0 }).read_through(available)
        } else {
            Some(SequenceLengthMismatch { expected, found: hint->0 })
        },
{
    lemma_read_through(Progress { expected: expected as nat, taken: 0 }, available);
}

} // verus!
