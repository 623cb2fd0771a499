//! Fixed-length history of the points a vehicle's exhaust has passed through.
//!
//! The history moves values of a scalar type `S` and never computes with
//! them: what a point holds is decided by the caller, where it is kept and
//! when it leaves is decided here. When a trail emits is decided by its
//! timer, which counts simulated time in whole microseconds.

use std::collections::VecDeque;
use vstd::prelude::*;

verus! {

/// How many points a trail holds once it has been updated.
pub const NUM_SEGMENTS: usize = 20;

/// How many scalars one point takes in the flat buffer handed to a renderer.
pub const SCALARS_PER_POINT: usize = 8;

/// One rendering-ready vertex of a trail.
#[derive(Debug)]
pub struct PathPoint<S> {
    pub position: (S, S),
    pub tangent: (S, S),
    pub intensity: S,
    pub width: S,
    pub brightness: S,
}

impl<S: Copy> Copy for PathPoint<S> {

}

impl<S: Copy> Clone for PathPoint<S> {
    fn clone(&self) -> (copy: Self)
        ensures
            copy == *self,
    {
        *self
    }
}

/// The trail behind one exhaust of one vehicle.
pub struct EngineTrail<S> {
    /// The points in ring order, oldest first, head last.
    path: VecDeque<PathPoint<S>>,
    color: (S, S, S, S),
    width: S,
    brightness: S,
    zero: S,
}

/// What a trail is made of.
pub struct TrailView<S> {
    /// The points in ring order, oldest first, head last.
    pub points: Seq<PathPoint<S>>,
    pub color: (S, S, S, S),
    /// The width that every new head is given.
    pub width: S,
    /// The brightness that every new head is given.
    pub brightness: S,
    /// The scalar zero: it fills the reserved slot of every point in the flat
    /// buffer and the fields of a fresh history that have no value yet.
    pub zero: S,
}

/// The point that a history is filled with when it is started afresh: it is
/// at `position` with `intensity`, and has no tangent, width or brightness.
pub open spec fn spec_fill_point<S>(position: (S, S), intensity: S, zero: S) -> PathPoint<S> {
    PathPoint { position, tangent: (zero, zero), intensity, width: zero, brightness: zero }
}

/// The point that becomes the head of a history: what the caller measured
/// this tick, with the trail's own width and brightness.
pub open spec fn spec_head_point<S>(
    position: (S, S),
    tangent: (S, S),
    intensity: S,
    width: S,
    brightness: S,
) -> PathPoint<S> {
    PathPoint { position, tangent, intensity, width, brightness }
}

/// The history after one tick. A history that does not hold exactly
/// `NUM_SEGMENTS` points is first replaced by that many copies of `fill`.
/// Then, on an emission, the oldest point leaves and every other point moves
/// one place towards the old end; otherwise only the old head leaves. In both
/// cases `head` becomes the new head.
pub open spec fn spec_update<P>(path: Seq<P>, emit: bool, fill: P, head: P) -> Seq<P> {
    let full = if path.len() == NUM_SEGMENTS {
        path
    } else {
        Seq::new(NUM_SEGMENTS as nat, |i: int| fill)
    };
    let kept = if emit {
        full.subrange(1, NUM_SEGMENTS as int)
    } else {
        full.subrange(0, NUM_SEGMENTS - 1)
    };
    kept.push(head)
}

/// The scalar in place `slot` of a point's eight places in the flat buffer.
pub open spec fn spec_slot<S>(point: PathPoint<S>, slot: int, pad: S) -> S {
    if slot == 0 {
        point.position.0
    } else if slot == 1 {
        point.position.1
    } else if slot == 2 {
        point.tangent.0
    } else if slot == 3 {
        point.tangent.1
    } else if slot == 4 {
        point.intensity
    } else if slot == 5 {
        point.brightness
    } else if slot == 6 {
        point.width
    } else {
        pad
    }
}

/// The flat buffer of a sequence of points: eight scalars for each point, in
/// the order of the points.
pub open spec fn spec_flatten<S>(points: Seq<PathPoint<S>>, pad: S) -> Seq<S> {
    Seq::new(
        points.len() * SCALARS_PER_POINT as nat,
        |k: int| spec_slot(points[k / SCALARS_PER_POINT as int], k % SCALARS_PER_POINT as int, pad),
    )
}

impl<S> View for EngineTrail<S> {
    type V = TrailView<S>;

    closed spec fn view(&self) -> TrailView<S> {
        TrailView {
            points: self.path@,
            color: self.color,
            width: self.width,
            brightness: self.brightness,
            zero: self.zero,
        }
    }
}

impl<S> EngineTrail<S> {
    /// A trail is either new, with no history, or holds exactly
    /// `NUM_SEGMENTS` points.
    pub open spec fn wf(&self) -> bool {
        self@.points.len() == 0 || self@.points.len() == NUM_SEGMENTS
    }
}

impl<S: Copy> EngineTrail<S> {
    /// A trail with no history yet.
    pub fn new(color: (S, S, S, S), width: S, brightness: S, zero: S) -> (trail: Self)
        ensures
            trail@ == (TrailView { points: Seq::empty(), color, width, brightness, zero }),
            trail.wf(),
    {
        Self { path: VecDeque::new(), color, width, brightness, zero }
    }

    pub fn color(&self) -> (color: (S, S, S, S))
        ensures
            color == self@.color,
    {
        self.color
    }

    pub fn width(&self) -> (width: S)
        ensures
            width == self@.width,
    {
        self.width
    }

    pub fn brightness(&self) -> (brightness: S)
        ensures
            brightness == self@.brightness,
    {
        self.brightness
    }

    pub fn zero(&self) -> (zero: S)
        ensures
            zero == self@.zero,
    {
        self.zero
    }

    /// Records one tick. `emit` says that the time of one segment has passed
    /// since the last emission; `tangent` is the head's tangent, scaled by
    /// the caller.
    pub fn update(&mut self, emit: bool, position: (S, S), tangent: (S, S), intensity: S)
        ensures
            final(self)@ == (TrailView {
                points: spec_update(
                    old(self)@.points,
                    emit,
                    spec_fill_point(position, intensity, old(self)@.zero),
                    spec_head_point(
                        position,
                        tangent,
                        intensity,
                        old(self)@.width,
                        old(self)@.brightness,
                    ),
                ),
                ..old(self)@
            }),
            final(self)@.points.len() == NUM_SEGMENTS,
            final(self).wf(),
    {
        let zero = self.zero;
        let fill = PathPoint { position, tangent: (zero, zero), intensity, width: zero, brightness: zero };
        let head = PathPoint {
            position,
            tangent,
            intensity,
            width: self.width,
            brightness: self.brightness,
        };
        if self.path.len() != NUM_SEGMENTS {
            self.path.clear();
            let mut filled: usize = 0;
            while filled < NUM_SEGMENTS
                invariant
                    filled <= NUM_SEGMENTS,
                    self.path@ == Seq::new(filled as nat, |i: int| fill),
                    self.color == old(self).color,
                    self.width == old(self).width,
                    self.brightness == old(self).brightness,
                    self.zero == old(self).zero,
                decreases NUM_SEGMENTS - filled,
            {
                self.path.push_back(fill);
                filled = filled + 1;
                assert(self.path@ =~= Seq::new(filled as nat, |i: int| fill));
            }
        }
        if emit {
            self.path.pop_front();
        } else {
            self.path.pop_back();
        }
        self.path.push_back(head);
    }

    /// How many points the trail holds.
    pub fn length(&self) -> (count: i32)
        requires
            self.wf(),
        ensures
            count == self@.points.len(),
    {
        self.path.len() as i32
    }

    /// The trail as the flat buffer a renderer takes, oldest point first.
    pub fn path_data_buffers(&self) -> (buffer: Vec<S>)
        ensures
            buffer@ == spec_flatten(self@.points, self@.zero),
    {
        let count = self.path.len();
        let mut buffer: Vec<S> = Vec::new();
        let mut i: usize = 0;
        while i < count
            invariant
                i <= count,
                count == self.path@.len(),
                buffer@ == spec_flatten(self.path@.subrange(0, i as int), self.zero),
            decreases count - i,
        {
            let point = self.path[i];
            buffer.push(point.position.0);
            buffer.push(point.position.1);
            buffer.push(point.tangent.0);
            buffer.push(point.tangent.1);
            buffer.push(point.intensity);
            buffer.push(point.brightness);
            buffer.push(point.width);
            buffer.push(self.zero);
            i = i + 1;
            assert(buffer@ =~= spec_flatten(self.path@.subrange(0, i as int), self.zero));
        }
        assert(self.path@.subrange(0, count as int) =~= self.path@);
        buffer
    }
}

/// Simulated time between two emissions, in microseconds.
pub const TIME_PER_SEGMENT: u64 = 250_000;

/// The time since a trail last emitted a point, in whole microseconds.
#[derive(Debug, Clone, Copy, PartialEq, Eq, Structural)]
pub struct EmissionTimer {
    pub elapsed: u64,
}

impl EmissionTimer {
    /// Whether a tick of `dt` microseconds brings the timer past the time of
    /// one segment.
    pub open spec fn spec_emits(self, dt: u64) -> bool {
        self.elapsed + dt > TIME_PER_SEGMENT
    }

    /// The time on the timer after a tick of `dt` microseconds: on an
    /// emission the time of one segment is taken off and the overshoot stays,
    /// otherwise `dt` is added. A timer that would pass `u64::MAX` stays
    /// there.
    pub open spec fn spec_after(self, dt: u64) -> int {
        let total = if self.elapsed + dt > u64::MAX {
            u64::MAX as int
        } else {
            self.elapsed + dt
        };
        if self.spec_emits(dt) {
            total - TIME_PER_SEGMENT
        } else {
            total
        }
    }

    pub fn new() -> (timer: Self)
        ensures
            timer.elapsed == 0,
    {
        Self { elapsed: 0 }
    }

    /// Adds one tick to the timer and says whether the trail emits a point on
    /// this tick.
    pub fn advance(&mut self, dt: u64) -> (emit: bool)
        ensures
            emit == old(self).spec_emits(dt),
            final(self).elapsed == old(self).spec_after(dt),
    {
        let total: u64 = self.elapsed.saturating_add(dt);
        if total > TIME_PER_SEGMENT {
            self.elapsed = total - TIME_PER_SEGMENT;
            true
        } else {
            self.elapsed = total;
            false
        }
    }
}

/// One tick of a trail: whether it emits, and the two points it may write.
pub struct TrailTick<P> {
    pub emit: bool,
    pub fill: P,
    pub head: P,
}

/// The history after a run of ticks, the first tick of `ticks` first.
pub open spec fn spec_replay<P>(path: Seq<P>, ticks: Seq<TrailTick<P>>) -> Seq<P>
    decreases ticks.len(),
{
    if ticks.len() == 0 {
        path
    } else {
        let last = ticks.last();
        spec_update(spec_replay(path, ticks.drop_last()), last.emit, last.fill, last.head)
    }
}

/// After a tick the history holds exactly `NUM_SEGMENTS` points and ends in
/// the new head, whatever it held before.
pub proof fn lemma_update_fills_the_ring<P>(path: Seq<P>, emit: bool, fill: P, head: P)
    ensures
        spec_update(path, emit, fill, head).len() == NUM_SEGMENTS,
        spec_update(path, emit, fill, head).last() == head,
{
}

/// After any run of one or more ticks, from any history, the history holds
/// exactly `NUM_SEGMENTS` points.
pub proof fn lemma_replay_fills_the_ring<P>(path: Seq<P>, ticks: Seq<TrailTick<P>>)
    requires
        ticks.len() > 0,
    ensures
        spec_replay(path, ticks).len() == NUM_SEGMENTS,
{
    let last = ticks.last();
    lemma_update_fills_the_ring(
        spec_replay(path, ticks.drop_last()),
        last.emit,
        last.fill,
        last.head,
    );
}

/// On an emission a full history loses its oldest point and every other
/// point moves one place towards the old end.
pub proof fn lemma_emission_shifts_history<P>(path: Seq<P>, fill: P, head: P, i: int)
    requires
        path.len() == NUM_SEGMENTS,
        0 <= i < NUM_SEGMENTS - 1,
    ensures
        spec_update(path, true, fill, head)[i] == path[i + 1],
{
}

/// Without an emission a full history keeps every point but its head.
pub proof fn lemma_body_stays_between_emissions<P>(path: Seq<P>, fill: P, head: P, i: int)
    requires
        path.len() == NUM_SEGMENTS,
        0 <= i < NUM_SEGMENTS - 1,
    ensures
        spec_update(path, false, fill, head)[i] == path[i],
{
}

/// A history of any other length is started afresh: behind the new head
/// every point is the fill point.
pub proof fn lemma_fresh_history_is_filled<P>(path: Seq<P>, emit: bool, fill: P, head: P, i: int)
    requires
        path.len() != NUM_SEGMENTS,
        0 <= i < NUM_SEGMENTS - 1,
    ensures
        spec_update(path, emit, fill, head)[i] == fill,
{
}

/// The flat buffer holds eight scalars for each point, and the scalars of
/// point `i` stand in places `8 * i` to `8 * i + 7`.
pub proof fn lemma_flat_layout<S>(points: Seq<PathPoint<S>>, pad: S, i: int, slot: int)
    requires
        0 <= i < points.len(),
        0 <= slot < SCALARS_PER_POINT,
    ensures
        spec_flatten(points, pad).len() == SCALARS_PER_POINT * points.len(),
        spec_flatten(points, pad)[SCALARS_PER_POINT * i + slot] == spec_slot(points[i], slot, pad),
{
    let k = SCALARS_PER_POINT * i + slot;
    assert(k / 8 == i && k % 8 == slot) by (nonlinear_arith)
        requires
            k == 8 * i + slot,
            0 <= slot < 8,
    ;
    assert(0 <= k < points.len() * 8) by (nonlinear_arith)
        requires
            k == 8 * i + slot,
            0 <= slot < 8,
            0 <= i < points.len(),
    ;
}

/// No time is lost on the timer: what it shows after a tick, and the time
/// of one segment if it emitted, add up to what it showed before and the
/// tick, as long as the sum fits the timer.
pub proof fn lemma_timer_keeps_time(timer: EmissionTimer, dt: u64)
    requires
        timer.elapsed + dt <= u64::MAX,
    ensures
        timer.spec_after(dt) + (if timer.spec_emits(dt) {
            TIME_PER_SEGMENT as int
        } else {
            0
        }) == timer.elapsed + dt,
        timer.spec_emits(dt) ==> timer.spec_after(dt) > 0,
        !timer.spec_emits(dt) ==> timer.spec_after(dt) <= TIME_PER_SEGMENT,
{
}

} // verus!
