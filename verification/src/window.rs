//! The place of the window, and keeping it on top.
use vstd::prelude::*;

verus! {

/// The place and size of the window.
#[derive(Debug, Clone, Copy, PartialEq, Eq, Structural)]
pub struct Geometry {
    pub x: i32,
    pub y: i32,
    pub width: i32,
    pub height: i32,
}

/// How often the place of the window is set again.
pub const MAX_RETRIES: u8 = 5;

/// The distance of two coordinates.
pub open spec fn distance(a: i32, b: i32) -> int {
    if a < b {
        b - a
    } else {
        a - b
    }
}

/// Whether the differences that comparing two places and sizes has to look at
/// are within 32 bits; the first one that is too large for them to be near
/// ends the comparison.
pub open spec fn differences_fit(a: Geometry, b: Geometry) -> bool {
    &&& distance(a.x, b.x) <= i32::MAX
    &&& distance(a.x, b.x) <= 8 ==> {
        &&& distance(a.y, b.y) <= i32::MAX
        &&& distance(a.y, b.y) <= 8 ==> {
            &&& distance(a.width, b.width) <= i32::MAX
            &&& distance(a.width, b.width) <= 16 ==> distance(a.height, b.height) <= i32::MAX
        }
    }
}

/// Whether the window is where it was to be put, but for the frame that a
/// window manager adds.
pub open spec fn is_near(actual: Geometry, target: Geometry) -> bool {
    &&& distance(actual.x, target.x) <= 8
    &&& distance(actual.y, target.y) <= 8
    &&& distance(actual.width, target.width) <= 16
    &&& distance(actual.height, target.height) <= 16
}

fn near(a: i32, b: i32, limit: i32) -> (r: bool)
    requires
        distance(a, b) <= i32::MAX,
        limit >= 0,
    ensures
        r == (distance(a, b) <= limit),
{
    if a < b {
        b - a <= limit
    } else {
        a - b <= limit
    }
}

/// Whether the differences that comparing two places and sizes has to look at
/// are within 32 bits.
pub fn geometry_fits(a: &Geometry, b: &Geometry) -> (r: bool)
    ensures
        r == differences_fit(*a, *b),
{
    if !coordinate_fits(a.x, b.x) {
        return false;
    }
    if !near(a.x, b.x, 8) {
        return true;
    }
    if !coordinate_fits(a.y, b.y) {
        return false;
    }
    if !near(a.y, b.y, 8) {
        return true;
    }
    if !coordinate_fits(a.width, b.width) {
        return false;
    }
    !near(a.width, b.width, 16) || coordinate_fits(a.height, b.height)
}

fn coordinate_fits(a: i32, b: i32) -> (r: bool)
    ensures
        r == (distance(a, b) <= i32::MAX),
{
    let d: i64 = a as i64 - b as i64;
    -(i32::MAX as i64) <= d && d <= i32::MAX as i64
}

/// Whether the window is where it was to be put.
pub fn geometry_matches(actual: &Geometry, target: &Geometry) -> (r: bool)
    requires
        differences_fit(*actual, *target),
    ensures
        r == is_near(*actual, *target),
{
    near(actual.x, target.x, 8) && near(actual.y, target.y, 8) && near(
        actual.width,
        target.width,
        16,
    ) && near(actual.height, target.height, 16)
}

/// What came of putting the window in its place.
#[derive(Debug, Clone, Copy, PartialEq, Eq, Structural)]
pub enum Attempt {
    /// There is no surface yet, or the window could not be configured, or its
    /// place could not be read back.
    Failed,
    /// The window cannot be placed on this display.
    Skipped,
    /// The window is now there.
    Placed(Geometry),
}

/// What follows from an attempt.
#[derive(Debug, Clone, Copy, PartialEq, Eq, Structural)]
pub enum AttemptStep {
    /// The window is in its place.
    Done,
    /// Another attempt follows.
    Retry,
    /// No other attempt follows.
    GiveUp,
}

/// How far restoring the window's place has come.
#[derive(Debug, Clone, Copy, PartialEq, Eq, Structural)]
pub struct GeometryRestore {
    pub applied: bool,
    pub attempts: u8,
    pub last: Option<Geometry>,
}

impl GeometryRestore {
    /// No more attempts are counted than are made.
    pub open spec fn wf(self) -> bool {
        self.attempts <= MAX_RETRIES
    }
}

/// The state after a retry was asked for.
pub open spec fn retried(s: GeometryRestore) -> GeometryRestore {
    if s.attempts >= MAX_RETRIES {
        s
    } else {
        GeometryRestore { attempts: (s.attempts + 1) as u8, ..s }
    }
}

/// What a retry that is asked for comes to.
pub open spec fn retry_step(s: GeometryRestore) -> AttemptStep {
    if s.attempts >= MAX_RETRIES {
        AttemptStep::GiveUp
    } else {
        AttemptStep::Retry
    }
}

/// The state after an attempt to put the window at `target`, and what follows.
/// A window that is in its place is left alone.
pub open spec fn attempted(s: GeometryRestore, target: Geometry, attempt: Attempt) -> (
    GeometryRestore,
    AttemptStep,
) {
    if s.applied {
        (s, AttemptStep::GiveUp)
    } else {
        match attempt {
            Attempt::Failed => (retried(s), retry_step(s)),
            Attempt::Skipped => (s, AttemptStep::GiveUp),
            Attempt::Placed(actual) => {
                let seen = GeometryRestore { last: Some(actual), ..s };
                if is_near(actual, target) {
                    (GeometryRestore { applied: true, ..seen }, AttemptStep::Done)
                } else {
                    (retried(seen), retry_step(seen))
                }
            },
        }
    }
}

/// Once the window is in its place, no attempt changes anything or leads to
/// another one; and it is in its place only where an attempt found it there.
pub proof fn law_restored_place_stays(s: GeometryRestore, target: Geometry, attempt: Attempt)
    ensures
        s.applied ==> attempted(s, target, attempt) == (s, AttemptStep::GiveUp),
        !s.applied ==> (attempted(s, target, attempt).0.applied <==> (attempt matches
            Attempt::Placed(actual) && is_near(actual, target))),
{
}

/// After the last retry no attempt leads to another one.
pub proof fn law_retries_end(s: GeometryRestore, target: Geometry, attempt: Attempt)
    requires
        s.wf(),
    ensures
        attempted(s, target, attempt).0.wf(),
        attempted(s, target, attempt).1 == AttemptStep::Retry ==> attempted(
            s,
            target,
            attempt,
        ).0.attempts == s.attempts + 1,
        s.attempts == MAX_RETRIES ==> attempted(s, target, attempt).1 != AttemptStep::Retry,
{
}

/// The state after it was begun to put the window in its place, and whether that
/// is still to be done.
pub open spec fn scheduled(s: GeometryRestore) -> (GeometryRestore, bool) {
    if s.applied {
        (s, false)
    } else {
        (GeometryRestore { attempts: 0, ..s }, true)
    }
}

/// The place to save: the one that was read now, else the last one known.
pub open spec fn place_kept(s: GeometryRestore, current: Option<Geometry>) -> Option<Geometry> {
    match current {
        Some(geometry) => Some(geometry),
        None => s.last,
    }
}

impl GeometryRestore {
    /// Nothing was tried yet.
    pub fn new() -> (r: Self)
        ensures
            r.wf(),
            r == (GeometryRestore { applied: false, attempts: 0, last: None }),
    {
        GeometryRestore { applied: false, attempts: 0, last: None }
    }

    /// Begins to put the window in its place; gives whether that is still to
    /// be done.
    pub fn schedule(&mut self) -> (r: bool)
        ensures
            (*final(self), r) == scheduled(*old(self)),
            r == !old(self).applied,
            *final(self) == if r {
                GeometryRestore { attempts: 0, ..*old(self) }
            } else {
                *old(self)
            },
    {
        if self.applied {
            return false;
        }
        self.attempts = 0;
        true
    }

    /// Whether the window is still to be put in its place.
    pub fn pending(&self) -> (r: bool)
        ensures
            r == !self.applied,
    {
        !self.applied
    }

    /// Asks for another attempt.
    pub fn retry(&mut self) -> (r: AttemptStep)
        ensures
            r == retry_step(*old(self)),
            *final(self) == retried(*old(self)),
    {
        if self.attempts >= MAX_RETRIES {
            return AttemptStep::GiveUp;
        }
        self.attempts = self.attempts + 1;
        AttemptStep::Retry
    }

    /// Notes where the window is.
    pub fn remember(&mut self, actual: Geometry)
        ensures
            *final(self) == (GeometryRestore { last: Some(actual), ..*old(self) }),
    {
        self.last = Some(actual);
    }

    /// Takes in what came of an attempt to put the window at `target`.
    pub fn record(&mut self, target: &Geometry, attempt: Attempt) -> (r: AttemptStep)
        requires
            !old(self).applied ==> (attempt matches Attempt::Placed(actual) ==> differences_fit(
                actual,
                *target,
            )),
        ensures
            (*final(self), r) == attempted(*old(self), *target, attempt),
    {
        if !self.pending() {
            return AttemptStep::GiveUp;
        }
        match attempt {
            Attempt::Failed => self.retry(),
            Attempt::Skipped => AttemptStep::GiveUp,
            Attempt::Placed(actual) => {
                self.remember(actual);
                if geometry_matches(&actual, target) {
                    self.applied = true;
                    AttemptStep::Done
                } else {
                    self.retry()
                }
            },
        }
    }

    /// The place to save: the one that was read now, else the last one known.
    pub fn place_to_save(&self, current: Option<Geometry>) -> (r: Option<Geometry>)
        ensures
            r == place_kept(*self, current),
            r == if current is Some {
                current
            } else {
                self.last
            },
    {
        match current {
            Some(geometry) => Some(geometry),
            None => self.last,
        }
    }
}

/// A width or height as the window system wants it: the same bits without a
/// sign.
pub open spec fn as_unsigned(n: i32) -> int {
    if n >= 0 {
        n as int
    } else {
        n + 0x1_0000_0000
    }
}

/// A width or height as the window system wants it.
pub fn to_unsigned(n: i32) -> (r: u32)
    ensures
        r == as_unsigned(n),
{
    if n >= 0 {
        n as u32
    } else {
        (n as i64 + 0x1_0000_0000) as u32
    }
}

/// What the window manager is told about a window that is to stay on top, or
/// no longer.
#[derive(Debug)]
pub struct TopmostRequest {
    /// The new value of the window's state.
    pub state: Vec<u32>,
    /// The data of the message: the action, two properties, its sender.
    pub message: [u32; 5],
}

/// Tells the window manager whether a window stays on top, by the atoms of the
/// properties for staying above and on every desktop.
pub fn topmost_request(topmost: bool, above: u32, sticky: u32) -> (r: TopmostRequest)
    ensures
        r.state@ == if topmost {
            seq![above, sticky]
        } else {
            Seq::empty()
        },
        r.message@ == seq![
            if topmost {
                1u32
            } else {
                0u32
            },
            above,
            sticky,
            1u32,
            0u32,
        ],
{
    let mut state: Vec<u32> = Vec::new();
    if topmost {
        state.push(above);
        state.push(sticky);
    }
    let action: u32 = if topmost {
        1
    } else {
        0
    };
    let r = TopmostRequest { state, message: [action, above, sticky, 1, 0] };
    assert(r.state@ =~= if topmost {
        seq![above, sticky]
    } else {
        Seq::empty()
    });
    assert(r.message@ =~= seq![action, above, sticky, 1u32, 0u32]);
    r
}

} // verus!
