use vstd::prelude::*;

use crate::decimal::fixed6;
use crate::event::Event;
use crate::planner::{legs_sum, Waypoint};
use crate::position::Position;

verus! {

/// Progress of a route in tenths of a percent after `step` of `total` steps, rounded down.
pub open spec fn permille(step: int, total: int) -> int {
    1000 * step / total
}

/// What one playback step reports: the step number after it, the distance
/// travelled so far, the progress before it, and the event to publish.
pub struct Progress {
    pub step: u64,
    pub traveled_mm: u64,
    pub permille: u64,
    pub event: Event,
}

/// The running state of one route's playback, owned by that route alone.
#[derive(Clone, Copy, Debug, PartialEq, Eq, Structural)]
pub struct Travel {
    /// Waypoints handled so far.
    pub current_step: u64,
    /// Steps between the first and the last waypoint.
    pub total_steps: u64,
    /// Distance travelled so far, in millimetres.
    pub traveled_mm: u64,
    /// The last waypoint's position, if there was one.
    pub previous_point: Option<Position>,
}

impl Travel {
    /// The state before the first waypoint of a route of `total_steps` steps.
    pub open spec fn new_spec(total_steps: u64) -> Travel {
        Travel { current_step: 0, total_steps, traveled_mm: 0, previous_point: None }
    }

    /// The state before the first waypoint of a route of `total_steps` steps.
    pub fn new(total_steps: u64) -> (r: Travel)
        ensures
            r == Travel::new_spec(total_steps),
    {
        Travel { current_step: 0, total_steps, traveled_mm: 0, previous_point: None }
    }

    /// How far the move to the next waypoint adds, given the geodesic distance
    /// `leg_mm` from the previous waypoint: nothing before the first one.
    pub open spec fn added(&self, leg_mm: u64) -> int {
        if self.previous_point is Some {
            leg_mm as int
        } else {
            0
        }
    }

    /// The state after moving to `p`, `leg_mm` millimetres from the previous
    /// waypoint: it depends on this state and the move alone.
    pub open spec fn after(self, p: Position, leg_mm: u64) -> Travel {
        Travel {
            current_step: (self.current_step + 1) as u64,
            total_steps: self.total_steps,
            traveled_mm: (self.traveled_mm + self.added(leg_mm)) as u64,
            previous_point: Some(p),
        }
    }

    /// Moves to `p`, which lies `leg_mm` millimetres from the previous waypoint.
    pub fn move_to(&mut self, p: Position, leg_mm: u64)
        requires
            old(self).current_step < u64::MAX,
            old(self).traveled_mm + old(self).added(leg_mm) <= u64::MAX,
        ensures
            final(self).traveled_mm == old(self).traveled_mm + old(self).added(leg_mm),
            final(self).current_step == old(self).current_step + 1,
            final(self).previous_point == Some(p),
            final(self).total_steps == old(self).total_steps,
            *final(self) == old(self).after(p, leg_mm),
    {
        let d: u64 = match self.previous_point {
            Some(_) => leg_mm,
            None => 0,
        };
        self.traveled_mm = self.traveled_mm + d;
        self.current_step = self.current_step + 1;
        self.previous_point = Some(p);
    }

    /// Plays one waypoint that lies `leg_mm` millimetres from the previous one:
    /// takes the progress before the step, moves, and builds the event to publish.
    pub fn handle(&mut self, w: Waypoint, leg_mm: u64) -> (r: Progress)
        requires
            old(self).total_steps >= 1,
            old(self).current_step <= old(self).total_steps,
            old(self).current_step < u64::MAX,
            old(self).traveled_mm + old(self).added(leg_mm) <= u64::MAX,
        ensures
            r.permille == permille(old(self).current_step as int, old(self).total_steps as int),
            r.permille <= 1000,
            old(self).current_step < old(self).total_steps ==> r.permille < 1000,
            final(self).traveled_mm == old(self).traveled_mm + old(self).added(leg_mm),
            final(self).current_step == old(self).current_step + 1,
            final(self).previous_point == Some(w.pos),
            final(self).total_steps == old(self).total_steps,
            *final(self) == old(self).after(w.pos, leg_mm),
            r.step == final(self).current_step,
            r.traveled_mm == final(self).traveled_mm,
            r.event.id == w.id,
            r.event.x@ == fixed6(w.pos.lon_e6 as int),
            r.event.y@ == fixed6(w.pos.lat_e6 as int),
    {
        let pct = progress_permille(self.current_step, self.total_steps);
        proof {
            lemma_progress_monotone(
                self.total_steps as int,
                self.current_step as int,
                self.current_step as int,
            );
        }
        self.move_to(w.pos, leg_mm);
        Progress {
            step: self.current_step,
            traveled_mm: self.traveled_mm,
            permille: pct,
            event: Event::from_waypoint(w),
        }
    }
}

/// The state after playing the first `k` waypoints at positions `ps`, the
/// `i`-th `ls[i]` millimetres from the one before it, starting from `t`.
pub open spec fn played(t: Travel, ps: Seq<Position>, ls: Seq<u64>, k: int) -> Travel
    decreases k,
{
    if k <= 0 {
        t
    } else {
        played(t, ps, ls, k - 1).after(ps[k - 1], ls[k - 1])
    }
}

/// Playing a route from its start: after `k` waypoints, `k` steps are done,
/// the last of them is where the route stands, and the distance travelled is
/// the sum of the legs between them (the leg given with the first waypoint
/// counts for nothing). Each route's state follows from its own waypoints
/// alone.
pub proof fn lemma_played_from_start(total: u64, ps: Seq<Position>, ls: Seq<u64>, k: int)
    requires
        0 <= k <= ps.len(),
        ps.len() == ls.len(),
        k < u64::MAX,
        legs_sum(ls, ls.len() as int) <= u64::MAX,
    ensures
        played(Travel::new_spec(total), ps, ls, k) == (Travel {
            current_step: k as u64,
            total_steps: total,
            traveled_mm: if k == 0 {
                0
            } else {
                (legs_sum(ls, k) - ls[0]) as u64
            },
            previous_point: if k == 0 {
                None
            } else {
                Some(ps[k - 1])
            },
        }),
    decreases k,
{
    if k > 0 {
        lemma_played_from_start(total, ps, ls, k - 1);
        crate::planner::lemma_legs_sum_monotone(ls, k, ls.len() as int);
        assert(legs_sum(ls, k) == legs_sum(ls, k - 1) + ls[k - 1]);
        assert(legs_sum(ls, 1) == ls[0]) by {
            assert(legs_sum(ls, 1) == legs_sum(ls, 0) + ls[0]);
        }
        if k > 1 {
            crate::planner::lemma_legs_sum_monotone(ls, 1, k - 1);
            let prev = played(Travel::new_spec(total), ps, ls, k - 1);
            assert(prev.previous_point is Some);
            assert(prev.traveled_mm == legs_sum(ls, k - 1) - ls[0]);
        }
    }
}

impl Default for Travel {
    fn default() -> (r: Travel)
        ensures
            r == (Travel { current_step: 0, total_steps: 0, traveled_mm: 0, previous_point: None }),
    {
        Travel::new(0)
    }
}

/// Progress in tenths of a percent after `step` of `total` steps, rounded down.
pub fn progress_permille(step: u64, total: u64) -> (r: u64)
    requires
        total >= 1,
        step <= total,
    ensures
        r == permille(step as int, total as int),
        r <= 1000,
{
    proof {
        vstd::arithmetic::div_mod::lemma_div_is_ordered(
            1000 * (step as int),
            1000 * (total as int),
            total as int,
        );
        vstd::arithmetic::div_mod::lemma_div_multiples_vanish(1000, total as int);
        assert(1000 * (total as int) == (total as int) * 1000);
    }
    ((1000 * (step as u128)) / (total as u128)) as u64
}

/// Progress over a route never goes back, stays under 100 percent before its
/// last waypoint, starts at 0 and is 100 percent when every step is done.
pub proof fn lemma_progress_monotone(total: int, a: int, b: int)
    requires
        total >= 1,
        0 <= a <= b <= total,
    ensures
        0 <= permille(a, total) <= permille(b, total) <= 1000,
        a < total ==> permille(a, total) < 1000,
        permille(0, total) == 0,
        permille(total, total) == 1000,
{
    vstd::arithmetic::div_mod::lemma_div_is_ordered(1000 * a, 1000 * b, total);
    vstd::arithmetic::div_mod::lemma_div_is_ordered(1000 * b, 1000 * total, total);
    vstd::arithmetic::div_mod::lemma_div_is_ordered(0, 1000 * a, total);
    vstd::arithmetic::div_mod::lemma_div_multiples_vanish(1000, total);
    assert(1000 * total == total * 1000);
    if a < total {
        let x = 1000 * a;
        vstd::arithmetic::div_mod::lemma_fundamental_div_mod(x, total);
        vstd::arithmetic::div_mod::lemma_mod_bound(x, total);
        assert(x / total < 1000) by (nonlinear_arith)
            requires
                x == total * (x / total) + x % total,
                0 <= x % total,
                x < 1000 * total,
                total >= 1,
        ;
    }
}

/// Milliseconds between two waypoints when `interval_s` simulated seconds are
/// played back `factor` times faster.
pub fn step_cadence_ms(interval_s: u64, factor: u64) -> (r: u64)
    requires
        factor >= 1,
        interval_s * 1000 <= u64::MAX,
    ensures
        r == (interval_s * 1000) / (factor as int),
{
    interval_s * 1000 / factor
}

} // verus!
