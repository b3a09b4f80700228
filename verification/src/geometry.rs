use vstd::prelude::*;

verus! {

use vstd::arithmetic::div_mod::lemma_small_mod;
use vstd::arithmetic::div_mod::lemma_mod_division_less_than_divisor;
use vstd::arithmetic::div_mod::lemma_mod_multiples_vanish;
use vstd::arithmetic::div_mod::lemma_add_mod_noop;
use vstd::arithmetic::div_mod::lemma_fundamental_div_mod_converse_mod;

/// Length of one full rotation of the triangle, in microseconds of
/// wall-clock time: the triangle turns once every five seconds.
pub const PERIOD_MICROS: u64 = 5_000_000;

/// Angles are measured in integer units of `2*pi / TURN_UNITS` radians, so
/// that one full turn is `TURN_UNITS` units.  The scale is chosen so that
/// both the per-microsecond advance (3 units) and the separation between
/// vertices (one third of a turn) are exact integers.
pub const TURN_UNITS: u64 = 3 * PERIOD_MICROS;

/// Angular separation between neighbouring vertices of the triangle:
/// one third of a full turn, i.e. `2*pi/3` radians.
pub const VERTEX_SEPARATION_UNITS: u64 = PERIOD_MICROS;

/// Microseconds elapsed since the start of the current rotation period.
pub open spec fn phase_of(t: nat) -> nat {
    t % (PERIOD_MICROS as nat)
}

/// Angle of vertex `i` (for `i < 3`) at time `t` microseconds, in units of
/// `2*pi / TURN_UNITS` radians.  Vertex 0 leads the rotation; vertices 1
/// and 2 trail it by one third of a turn each.  A vertex's position is the
/// point at this angle on the circle of radius one half about the origin:
/// `(cos(angle) / 2, sin(angle) / 2)`.
pub open spec fn vertex_angle(t: nat, i: nat) -> nat {
    (3 * phase_of(t) + i * (VERTEX_SEPARATION_UNITS as nat)) % (TURN_UNITS as nat)
}

/// The three vertex angles of the triangle at one instant, in units of
/// `2*pi / TURN_UNITS` radians each.
#[derive(Clone, Copy, Debug, PartialEq, Eq, Structural)]
pub struct TriangleAngles {
    pub v0: u64,
    pub v1: u64,
    pub v2: u64,
}

impl TriangleAngles {
    /// Every angle is a valid point on the circle: strictly below one turn.
    pub open spec fn wf(self) -> bool {
        self.v0 < TURN_UNITS && self.v1 < TURN_UNITS && self.v2 < TURN_UNITS
    }

    /// These are exactly the three angles of the triangle at time `t`.
    pub open spec fn matches_time(self, t: nat) -> bool {
        &&& self.v0 == vertex_angle(t, 0)
        &&& self.v1 == vertex_angle(t, 1)
        &&& self.v2 == vertex_angle(t, 2)
    }
}

/// Phase of the rotation at `elapsed_micros` microseconds since the epoch:
/// the remainder of the five-second period, always in `[0, PERIOD_MICROS)`.
/// The elapsed time is never negative, so the plain remainder already has
/// the always-non-negative semantics the rotation needs.
pub fn phase_micros(elapsed_micros: u64) -> (r: u64)
    ensures
        r == phase_of(elapsed_micros as nat),
        r < PERIOD_MICROS,
{
    elapsed_micros % PERIOD_MICROS
}

/// Compute the triangle for the instant `elapsed_micros` microseconds
/// after the epoch: three vertices on the circle of radius one half,
/// separated by one third of a turn, the first of them `3 * phase` angle
/// units past the positive x axis.
pub fn triangle_at(elapsed_micros: u64) -> (r: TriangleAngles)
    ensures
        r.matches_time(elapsed_micros as nat),
        r.wf(),
{
    let phase: u64 = elapsed_micros % PERIOD_MICROS;
    let lead: u64 = 3 * phase;
    let v1: u64 = (lead + VERTEX_SEPARATION_UNITS) % TURN_UNITS;
    let v2: u64 = (lead + 2 * VERTEX_SEPARATION_UNITS) % TURN_UNITS;
    proof {
        lemma_small_mod(lead as nat, TURN_UNITS as nat);
        lemma_mod_division_less_than_divisor((lead + VERTEX_SEPARATION_UNITS) as int, TURN_UNITS as int);
        lemma_mod_division_less_than_divisor((lead + 2 * VERTEX_SEPARATION_UNITS) as int, TURN_UNITS as int);
    }
    TriangleAngles { v0: lead, v1, v2 }
}

/// Each vertex angle is strictly below one full turn.
pub proof fn lemma_angle_in_range(t: nat, i: nat)
    ensures
        vertex_angle(t, i) < TURN_UNITS,
{
    lemma_mod_division_less_than_divisor(
        (3 * phase_of(t) + i * (VERTEX_SEPARATION_UNITS as nat)) as int,
        TURN_UNITS as int,
    );
}

/// Geometry periodicity: the triangle computed at time `t + PERIOD_MICROS`
/// is the same as the triangle computed at time `t` — the rotation repeats
/// exactly once every five seconds.
pub proof fn lemma_rotation_periodic(t: nat, i: nat)
    ensures
        vertex_angle(t + PERIOD_MICROS as nat, i) == vertex_angle(t, i),
{
    lemma_mod_multiples_vanish(1, t as int, PERIOD_MICROS as int);
    assert(phase_of(t + PERIOD_MICROS as nat) == phase_of(t));
}

/// Equilateral invariant: at every time `t` each vertex sits exactly one
/// third of a turn (`2*pi/3` radians) past its predecessor on the circle,
/// so the three vertices of the triangle are equally spaced.
pub proof fn lemma_equilateral(t: nat)
    ensures
        vertex_angle(t, 1) == (vertex_angle(t, 0) + VERTEX_SEPARATION_UNITS as nat) % (
        TURN_UNITS as nat),
        vertex_angle(t, 2) == (vertex_angle(t, 1) + VERTEX_SEPARATION_UNITS as nat) % (
        TURN_UNITS as nat),
        vertex_angle(t, 0) == (vertex_angle(t, 2) + VERTEX_SEPARATION_UNITS as nat) % (
        TURN_UNITS as nat),
{
    let p = phase_of(t);
    let sep = VERTEX_SEPARATION_UNITS as nat;
    let turn = TURN_UNITS as nat;
    lemma_mod_division_less_than_divisor(t as int, PERIOD_MICROS as int);
    lemma_small_mod(3 * p, turn);
    assert(vertex_angle(t, 0) == 3 * p);
    lemma_small_mod(sep, turn);
    lemma_add_mod_noop((3 * p + sep) as int, sep as int, turn as int);
    assert(vertex_angle(t, 2) == (vertex_angle(t, 1) + sep) % turn);
    lemma_add_mod_noop((3 * p + 2 * sep) as int, sep as int, turn as int);
    lemma_mod_multiples_vanish(1, 3 * p as int, turn as int);
    assert(vertex_angle(t, 0) == (vertex_angle(t, 2) + sep) % turn);
}

/// How far the leading vertex has turned counter-clockwise between two
/// instants, in angle units, measured around the circle.
pub open spec fn lead_angle_advance(t1: nat, t2: nat) -> int {
    (vertex_angle(t2, 0) + TURN_UNITS as nat - vertex_angle(t1, 0)) % (TURN_UNITS as int)
}

/// Monotonic rotation: between any two instants less than one period
/// apart, the leading vertex advances counter-clockwise by exactly three
/// angle units per microsecond, and never stands still or reverses.
pub proof fn lemma_rotation_monotonic(t1: nat, t2: nat)
    requires
        t1 < t2,
        t2 - t1 < PERIOD_MICROS,
    ensures
        lead_angle_advance(t1, t2) == 3 * (t2 - t1),
        0 < lead_angle_advance(t1, t2),
{
    let period = PERIOD_MICROS as nat;
    let turn = TURN_UNITS as nat;
    let p1 = phase_of(t1);
    let p2 = phase_of(t2);
    let d = (t2 - t1) as nat;
    lemma_mod_division_less_than_divisor(t1 as int, period as int);
    lemma_mod_division_less_than_divisor(t2 as int, period as int);
    lemma_small_mod(3 * p1, turn);
    lemma_small_mod(3 * p2, turn);
    lemma_add_mod_noop(t1 as int, d as int, period as int);
    lemma_small_mod(d, period);
    assert(p2 == (p1 + d) % period);
    if p1 + d < period {
        lemma_small_mod(p1 + d, period);
        assert(p2 == p1 + d);
        lemma_mod_multiples_vanish(1, 3 * d as int, turn as int);
        lemma_small_mod(3 * d, turn);
        assert((3 * p2 + turn - 3 * p1) % (turn as int) == 3 * d);
    } else {
        lemma_fundamental_div_mod_converse_mod(
            (p1 + d) as int,
            period as int,
            1,
            (p1 + d - period) as int,
        );
        assert(p2 == p1 + d - period);
        lemma_small_mod(3 * d, turn);
        assert(3 * p2 + turn - 3 * p1 == 3 * d);
    }
}

} // verus!
