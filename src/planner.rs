use vstd::prelude::*;
use vstd::arithmetic::div_mod::{lemma_div_denominator, lemma_fundamental_div_mod, lemma_div_is_ordered};
use vstd::arithmetic::mul::lemma_mul_inequality;

use crate::position::{Position, MAX_LON_E6, MAX_LAT_E6};

verus! {

/// Why a route could not be turned into waypoints.
#[derive(Clone, Copy, Debug, PartialEq, Eq, Structural)]
pub enum PlanError {
    /// The route is too short to take a single step at the given speed and interval.
    DegenerateRoute,
    /// Speed or interval is not positive.
    InvalidParameters,
    /// The route needs more steps than a sequence of waypoints can hold.
    TooManySteps,
}

/// Total length in millimetres of the first `j` legs.
pub open spec fn legs_sum(legs: Seq<u64>, j: int) -> int
    decreases j,
{
    if j <= 0 || legs.len() == 0 {
        0
    } else if j > legs.len() {
        legs_sum(legs, legs.len() as int)
    } else {
        legs_sum(legs, j - 1) + legs[j - 1]
    }
}

/// A device's route: its id, its vertices, and the geodesic length of each leg
/// between consecutive vertices, in millimetres.
pub struct Route {
    pub id: String,
    pub points: Vec<Position>,
    pub legs_mm: Vec<u64>,
}

impl Route {
    /// One leg between each pair of consecutive vertices, every vertex on the
    /// globe, and a total length that fits in a `u64`.
    pub open spec fn wf(&self) -> bool {
        &&& self.points@.len() == self.legs_mm@.len() + 1
        &&& forall|k: int| 0 <= k < self.points@.len() ==> (#[trigger] self.points@[k]).wf()
        &&& legs_sum(self.legs_mm@, self.legs_mm@.len() as int) <= u64::MAX
    }

    /// Length of the whole route in millimetres.
    pub open spec fn length(&self) -> int {
        legs_sum(self.legs_mm@, self.legs_mm@.len() as int)
    }

    /// A route from its parts; `None` unless they make a well-formed route.
    pub fn new(id: String, points: Vec<Position>, legs_mm: Vec<u64>) -> (r: Option<Route>)
        ensures
            r matches Some(route) ==> route.wf() && route.id == id && route.points@
                == points@ && route.legs_mm@ == legs_mm@,
            r is None ==> !(Route { id, points, legs_mm }).wf(),
    {
        if points.len() == 0 || points.len() - 1 != legs_mm.len() {
            return None;
        }
        let mut k: usize = 0;
        while k < points.len()
            invariant
                0 <= k <= points@.len(),
                forall|i: int| 0 <= i < k ==> (#[trigger] points@[i]).wf(),
            decreases points@.len() - k,
        {
            let p = points[k];
            if !(-MAX_LON_E6 <= p.lon_e6 && p.lon_e6 <= MAX_LON_E6 && -MAX_LAT_E6 <= p.lat_e6
                && p.lat_e6 <= MAX_LAT_E6) {
                return None;
            }
            k += 1;
        }
        let mut total: u64 = 0;
        let mut j: usize = 0;
        while j < legs_mm.len()
            invariant
                0 <= j <= legs_mm@.len(),
                total == legs_sum(legs_mm@, j as int),
            decreases legs_mm@.len() - j,
        {
            match total.checked_add(legs_mm[j]) {
                Some(t) => {
                    total = t;
                },
                None => {
                    proof {
                        lemma_legs_sum_monotone(legs_mm@, j + 1, legs_mm@.len() as int);
                    }
                    return None;
                },
            }
            j += 1;
        }
        Some(Route { id, points, legs_mm })
    }

    /// Length of the whole route in millimetres.
    pub fn length_mm(&self) -> (r: u64)
        requires
            self.wf(),
        ensures
            r == self.length(),
    {
        let mut total: u64 = 0;
        let mut j: usize = 0;
        while j < self.legs_mm.len()
            invariant
                self.wf(),
                0 <= j <= self.legs_mm@.len(),
                total == legs_sum(self.legs_mm@, j as int),
            decreases self.legs_mm@.len() - j,
        {
            proof {
                lemma_legs_sum_monotone(self.legs_mm@, j + 1, self.legs_mm@.len() as int);
            }
            total = total + self.legs_mm[j];
            j += 1;
        }
        total
    }
}

/// The sum of the first legs never exceeds the sum of more of them.
pub proof fn lemma_legs_sum_monotone(legs: Seq<u64>, i: int, j: int)
    requires
        0 <= i <= j <= legs.len(),
    ensures
        legs_sum(legs, i) <= legs_sum(legs, j),
    decreases j - i,
{
    if i < j {
        lemma_legs_sum_monotone(legs, i, j - 1);
    }
}

/// Whether a feature of a dataset can be ridden: it has a geometry, and a
/// device id that is present and not empty.
pub fn usable_feature(geometry_empty: bool, device_id: Option<&str>) -> (r: bool)
    ensures
        r == (!geometry_empty && (device_id matches Some(id) && id@.len() > 0)),
{
    !geometry_empty && match device_id {
        None => false,
        Some(id) => !id.is_empty(),
    }
}

/// One simulated position of a device.
pub struct Waypoint {
    pub id: String,
    pub pos: Position,
}

/// Number of steps from start to end of a route `length_mm` long, at
/// `speed_mph` metres per hour, with a position every `interval_s` seconds:
/// the whole travel time divided by the interval, rounded down.
///
/// Travel time is `length / (speed / 3.6)` seconds for a length in metres and a
/// speed in kilometres per hour, which is `18 * length_mm / (5 * speed_mph)`.
pub open spec fn steps(length_mm: int, speed_mph: int, interval_s: int) -> int {
    (18 * length_mm) / (5 * speed_mph * interval_s)
}

/// What planning gives for a route of this length at this speed and interval.
pub open spec fn step_count_result(length_mm: int, speed_mph: int, interval_s: int) -> Result<
    u64,
    PlanError,
> {
    if speed_mph <= 0 || interval_s <= 0 {
        Err(PlanError::InvalidParameters)
    } else if steps(length_mm, speed_mph, interval_s) == 0 {
        Err(PlanError::DegenerateRoute)
    } else if steps(length_mm, speed_mph, interval_s) >= usize::MAX {
        Err(PlanError::TooManySteps)
    } else {
        Ok(steps(length_mm, speed_mph, interval_s) as u64)
    }
}

/// Steps of equal arc length, `speed * interval` each (`5 * speed_mph *
/// interval_s / 18` millimetres), cover a route up to less than one step:
/// `steps * step <= length < (steps + 1) * step`. So the distance from the
/// last interpolated waypoint to the end is at least one step and less than
/// two, and the steps add up to the route's length as they get shorter.
pub proof fn lemma_steps_cover_route(length_mm: int, speed_mph: int, interval_s: int)
    requires
        length_mm >= 0,
        speed_mph > 0,
        interval_s > 0,
    ensures
        ({
            let q = 5 * speed_mph * interval_s;
            let t = steps(length_mm, speed_mph, interval_s);
            &&& t >= 0
            &&& t * q <= 18 * length_mm
            &&& 18 * length_mm < (t + 1) * q
        }),
{
    let q = 5 * speed_mph * interval_s;
    let x = 18 * length_mm;
    assert(q > 0) by (nonlinear_arith)
        requires
            speed_mph > 0,
            interval_s > 0,
            q == 5 * speed_mph * interval_s,
    ;
    lemma_fundamental_div_mod(x, q);
    vstd::arithmetic::div_mod::lemma_mod_bound(x, q);
    vstd::arithmetic::div_mod::lemma_div_pos_is_pos(x, q);
    assert(x / q * q <= x < (x / q + 1) * q) by (nonlinear_arith)
        requires
            x == q * (x / q) + x % q,
            0 <= x % q < q,
    ;
}

/// The number of steps between the first and the last waypoint of a route
/// (one fewer than the number of waypoints).
pub fn step_count(length_mm: u64, speed_mph: u64, interval_s: u64) -> (r: Result<u64, PlanError>)
    ensures
        r == step_count_result(length_mm as int, speed_mph as int, interval_s as int),
{
    if speed_mph == 0 || interval_s == 0 {
        return Err(PlanError::InvalidParameters);
    }
    proof {
        assert(0 < (speed_mph as int) * (interval_s as int) <= (u64::MAX as int) * (
        u64::MAX as int)) by (nonlinear_arith)
            requires
                0 < speed_mph <= u64::MAX,
                0 < interval_s <= u64::MAX,
        ;
    }
    let per_step: u128 = (speed_mph as u128) * (interval_s as u128);
    let eighteenths: u128 = 18 * (length_mm as u128);
    let t: u128 = eighteenths / 5 / per_step;
    proof {
        lemma_div_denominator(eighteenths as int, 5, per_step as int);
        assert(5 * (speed_mph as int) * (interval_s as int) == 5 * (per_step as int))
            by (nonlinear_arith)
            requires
                per_step as int == (speed_mph as int) * (interval_s as int),
        ;
    }
    if t == 0 {
        Err(PlanError::DegenerateRoute)
    } else if t >= usize::MAX as u128 {
        Err(PlanError::TooManySteps)
    } else {
        Ok(t as u64)
    }
}

/// The point that divides `a..b` in the ratio `num : den - num`, rounded
/// towards `a`.
pub open spec fn lerp(a: int, b: int, num: int, den: int) -> int {
    if b >= a {
        a + (b - a) * num / den
    } else {
        a - (a - b) * num / den
    }
}

/// The position `num / den` of the way from `p` to `q`, each coordinate rounded towards `p`.
pub open spec fn lerp_pos(p: Position, q: Position, num: int, den: int) -> Position {
    Position {
        lon_e6: lerp(p.lon_e6 as int, q.lon_e6 as int, num, den) as i64,
        lat_e6: lerp(p.lat_e6 as int, q.lat_e6 as int, num, den) as i64,
    }
}

/// The position `n / 18` millimetres along a route, searched from leg `j` on:
/// on the first leg that ends beyond it, linear in the distance along that
/// leg; past the end of the route, the last vertex.
pub open spec fn point_along(points: Seq<Position>, legs: Seq<u64>, n: int, j: int) -> Position
    decreases legs.len() - j,
{
    if j < 0 || j >= legs.len() {
        points.last()
    } else if n < 18 * legs_sum(legs, j + 1) {
        lerp_pos(points[j], points[j + 1], n - 18 * legs_sum(legs, j), 18 * legs[j])
    } else {
        point_along(points, legs, n, j + 1)
    }
}

/// Where waypoint `s` of a route with `total` steps stands: the first vertex
/// at the start, the last vertex at the end, and in between the point
/// `s * speed * interval` along the route (`s / steps` of its length).
pub open spec fn waypoint_pos(
    route: &Route,
    speed_mph: int,
    interval_s: int,
    total: int,
    s: int,
) -> Position {
    if s == 0 {
        route.points@[0]
    } else if s == total {
        route.points@.last()
    } else {
        point_along(route.points@, route.legs_mm@, 5 * s * speed_mph * interval_s, 0)
    }
}

fn lerp_coord(a: i64, b: i64, num: u128, den: u128, bound: i64) -> (r: i64)
    requires
        0 <= num < den,
        0 < bound <= MAX_LON_E6,
        -bound <= a <= bound,
        -bound <= b <= bound,
        den <= 18 * (u64::MAX as int),
    ensures
        r == lerp(a as int, b as int, num as int, den as int),
        -bound <= r <= bound,
{
    let d: u128 = if b >= a {
        (b - a) as u128
    } else {
        (a - b) as u128
    };
    proof {
        assert((d as int) * (num as int) <= (d as int) * (den as int)) by (nonlinear_arith)
            requires
                num < den,
        ;
        assert((d as int) * (den as int) <= 360_000_000 * 18 * (u64::MAX as int))
            by (nonlinear_arith)
            requires
                d <= 360_000_000,
                den <= 18 * (u64::MAX as int),
        ;
    }
    let k: u128 = d * num / den;
    proof {
        lemma_div_is_ordered((d as int) * (num as int), (d as int) * (den as int), den as int);
        assert((d as int) * (den as int) / (den as int) == d as int) by (nonlinear_arith)
            requires
                den > 0,
        ;
    }
    if b >= a {
        a + (k as i64)
    } else {
        a - (k as i64)
    }
}

fn lerp_position(p: Position, q: Position, num: u128, den: u128) -> (r: Position)
    requires
        0 <= num < den,
        den <= 18 * (u64::MAX as int),
        p.wf(),
        q.wf(),
    ensures
        r == lerp_pos(p, q, num as int, den as int),
        r.wf(),
{
    Position {
        lon_e6: lerp_coord(p.lon_e6, q.lon_e6, num, den, MAX_LON_E6),
        lat_e6: lerp_coord(p.lat_e6, q.lat_e6, num, den, MAX_LAT_E6),
    }
}

fn position_along(route: &Route, n: u128) -> (r: Position)
    requires
        route.wf(),
    ensures
        r == point_along(route.points@, route.legs_mm@, n as int, 0),
        r.wf(),
{
    let legs = &route.legs_mm;
    let mut j: usize = 0;
    let mut start: u128 = 0;
    while j < legs.len()
        invariant
            route.wf(),
            legs == &route.legs_mm,
            0 <= j <= legs@.len(),
            start == 18 * legs_sum(legs@, j as int),
            start <= n,
            point_along(route.points@, legs@, n as int, 0) == point_along(
                route.points@,
                legs@,
                n as int,
                j as int,
            ),
        decreases legs@.len() - j,
    {
        proof {
            lemma_legs_sum_monotone(legs@, j + 1, legs@.len() as int);
        }
        let end: u128 = start + 18 * (legs[j] as u128);
        if n < end {
            let p = route.points[j];
            let q = route.points[j + 1];
            return lerp_position(p, q, n - start, 18 * (legs[j] as u128));
        }
        start = end;
        j += 1;
    }
    route.points[route.points.len() - 1]
}

/// The waypoints of a route travelled at `speed_mph` metres per hour with a
/// position every `interval_s` seconds: one per step, from the first vertex
/// exactly to the last vertex exactly, each tagged with the route's id.
pub fn plan(route: &Route, speed_mph: u64, interval_s: u64) -> (r: Result<Vec<Waypoint>, PlanError>)
    requires
        route.wf(),
    ensures
        match step_count_result(route.length(), speed_mph as int, interval_s as int) {
            Err(e) => r == Err::<Vec<Waypoint>, PlanError>(e),
            Ok(total) => r matches Ok(w) && {
                &&& w@.len() == total + 1
                &&& w@[0].pos == route.points@[0]
                &&& w@.last().pos == route.points@.last()
                &&& forall|s: int|
                    0 <= s < w@.len() ==> (#[trigger] w@[s]).id == route.id && w@[s].pos
                        == waypoint_pos(route, speed_mph as int, interval_s as int, total as int, s)
            },
        },
{
    let length = route.length_mm();
    let total = match step_count(length, speed_mph, interval_s) {
        Ok(t) => t,
        Err(e) => {
            return Err(e);
        },
    };
    proof {
        lemma_steps_cover_route(length as int, speed_mph as int, interval_s as int);
        let q = 5 * (speed_mph as int) * (interval_s as int);
        assert(total as int == steps(length as int, speed_mph as int, interval_s as int));
        assert(q * (total as int) <= 18 * (length as int));
        assert(q <= q * (total as int)) by (nonlinear_arith)
            requires
                q >= 0,
                total >= 1,
        ;
        assert(q <= 18 * (u64::MAX as int));
    }
    let per_step: u128 = 5 * (speed_mph as u128) * (interval_s as u128);
    let mut w: Vec<Waypoint> = Vec::new();
    let mut s: u64 = 0;
    while s <= total
        invariant
            route.wf(),
            0 <= s <= total + 1,
            total < usize::MAX,
            total >= 1,
            per_step == 5 * (speed_mph as int) * (interval_s as int),
            per_step * total <= 18 * (length as int),
            length == route.length(),
            w@.len() == s,
            forall|k: int|
                0 <= k < s ==> (#[trigger] w@[k]).id == route.id && w@[k].pos == waypoint_pos(
                    route,
                    speed_mph as int,
                    interval_s as int,
                    total as int,
                    k,
                ),
        decreases total + 1 - s,
    {
        let pos = if s == 0 {
            route.points[0]
        } else if s == total {
            route.points[route.points.len() - 1]
        } else {
            proof {
                lemma_mul_inequality(s as int, total as int, per_step as int);
                assert((s as int) * (per_step as int) == 5 * (s as int) * (speed_mph as int) * (
                interval_s as int)) by (nonlinear_arith)
                    requires
                        per_step == 5 * (speed_mph as int) * (interval_s as int),
                ;
            }
            position_along(route, (s as u128) * per_step)
        };
        w.push(Waypoint { id: route.id.clone(), pos });
        s += 1;
    }
    Ok(w)
}

} // verus!
