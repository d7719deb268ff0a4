use vstd::prelude::*;
use crate::tuas_lib_error::TuasLibError;

verus! {

/// No coordinate of a knot lies further from zero than this (2 to the 62).
pub const KNOT_LIMIT: i64 = 4_611_686_018_427_387_904;

/// The straight line through `(x0, y0)` and `(x1, y1)` at `x`, rounded
/// towards minus infinity.
pub open spec fn interpolate(x0: int, y0: int, x1: int, y1: int, x: int) -> int {
    y0 + ((y1 - y0) * (x - x0)) / (x1 - x0)
}

/// Each element is less than every later one.
pub open spec fn strictly_increasing(s: Seq<i64>) -> bool {
    forall|i: int, j: int| 0 <= i < j < s.len() ==> s[i] < s[j]
}

/// Every element lies within the knot limit.
pub open spec fn within_knot_limit(s: Seq<i64>) -> bool {
    forall|i: int| 0 <= i < s.len() ==> -KNOT_LIMIT <= #[trigger] s[i] <= KNOT_LIMIT
}

/// A piecewise linear function given by its knots: at `xs[i]` it takes the
/// value `ys[i]`, and between two neighbouring knots it is a straight line.
/// Outside `[xs.first(), xs.last()]` it is not defined.
pub struct Table {
    pub xs: Seq<i64>,
    pub ys: Seq<i64>,
}

impl Table {
    /// At least two knots, with strictly increasing abscissae.
    pub open spec fn wf(self) -> bool {
        &&& self.xs.len() == self.ys.len()
        &&& self.xs.len() >= 2
        &&& strictly_increasing(self.xs)
        &&& within_knot_limit(self.xs)
        &&& within_knot_limit(self.ys)
    }

    pub open spec fn lower(self) -> int {
        self.xs.first() as int
    }

    pub open spec fn upper(self) -> int {
        self.xs.last() as int
    }

    /// Whether the function is defined at `x`.
    pub open spec fn in_domain(self, x: int) -> bool {
        self.lower() <= x <= self.upper()
    }

    /// Whether `x` lies on the segment between knots `i` and `i + 1`.
    pub open spec fn segment_contains(self, i: int, x: int) -> bool {
        0 <= i < self.xs.len() - 1 && self.xs[i] <= x <= self.xs[i + 1]
    }

    /// The line of segment `i` at `x`.
    pub open spec fn on_segment(self, i: int, x: int) -> int {
        interpolate(
            self.xs[i] as int,
            self.ys[i] as int,
            self.xs[i + 1] as int,
            self.ys[i + 1] as int,
            x,
        )
    }

    /// The value of the function at `x`: the line of a segment on which `x` lies.
    pub open spec fn value_at(self, x: int) -> int {
        self.on_segment(choose|i: int| self.segment_contains(i, x), x)
    }

    /// The value at `x` as a quantity, or the range error where the function
    /// is not defined.
    pub open spec fn lookup(self, x: int) -> Result<i64, TuasLibError> {
        if self.in_domain(x) {
            Ok(self.value_at(x) as i64)
        } else {
            Err(TuasLibError::ThermophysicalPropertyTemperatureRangeError)
        }
    }

    /// Whether both tables are defined on the same interval.
    pub open spec fn same_domain(self, other: Table) -> bool {
        self.lower() == other.lower() && self.upper() == other.upper()
    }

    /// Whether the function can be inverted.
    pub open spec fn invertible(self) -> bool {
        strictly_increasing(self.ys)
    }

    /// Whether every ordinate is greater than zero.
    pub open spec fn positive(self) -> bool {
        forall|i: int| 0 <= i < self.ys.len() ==> #[trigger] self.ys[i] > 0
    }

    /// A function with positive ordinates is positive wherever it is defined.
    pub proof fn lemma_positive_value(self, x: int)
        requires
            self.wf(),
            self.positive(),
            self.in_domain(x),
        ensures
            self.value_at(x) > 0,
    {
        let i = self.lemma_some_segment(x);
        self.lemma_value_on_segment(i, x);
        self.lemma_segment_bounds(i, x);
    }

    /// No value of the function lies further from zero than the knot limit.
    pub proof fn lemma_value_within_limit(self, x: int)
        requires
            self.wf(),
            self.in_domain(x),
        ensures
            -KNOT_LIMIT <= self.value_at(x) <= KNOT_LIMIT,
            -KNOT_LIMIT <= x <= KNOT_LIMIT,
    {
        let i = self.lemma_some_segment(x);
        self.lemma_value_on_segment(i, x);
        self.lemma_segment_bounds(i, x);
        assert(-KNOT_LIMIT <= self.ys[i] <= KNOT_LIMIT);
        assert(-KNOT_LIMIT <= self.ys[i + 1] <= KNOT_LIMIT);
        assert(-KNOT_LIMIT <= self.xs[i] <= KNOT_LIMIT);
        assert(-KNOT_LIMIT <= self.xs[i + 1] <= KNOT_LIMIT);
    }

    /// Whether the function rises on every segment at least as much as the
    /// segment is wide: then it increases strictly from each integer to the
    /// next, and no two abscissae share a value.
    pub open spec fn resolving(self) -> bool {
        forall|i: int| 0 <= i < self.xs.len() - 1 ==> #[trigger] self.segment_resolves(i)
    }

    /// Whether segment `i` rises at least as much as it is wide.
    pub open spec fn segment_resolves(self, i: int) -> bool {
        self.ys[i + 1] - self.ys[i] >= self.xs[i + 1] - self.xs[i]
    }

    /// Whether the function reaches the value `y`.
    pub open spec fn in_range(self, y: int) -> bool {
        self.ys.first() <= y <= self.ys.last()
    }

    /// Whether `x` is the abscissa that belongs to the value `y`: the
    /// greatest at which the function does not exceed `y`.
    pub open spec fn is_inverse_at(self, y: int, x: int) -> bool {
        &&& self.in_domain(x)
        &&& self.value_at(x) <= y
        &&& (x == self.upper() || y < self.value_at(x + 1))
    }

    /// The abscissa that belongs to the value `y`.
    pub open spec fn inverse_at(self, y: int) -> int {
        choose|x: int| self.is_inverse_at(y, x)
    }

    /// The abscissa that belongs to the value `y` as a quantity, or the
    /// range error where the function does not reach `y`.
    pub open spec fn inverse_lookup(self, y: int) -> Result<i64, TuasLibError> {
        if self.in_range(y) {
            Ok(self.inverse_at(y) as i64)
        } else {
            Err(TuasLibError::ThermophysicalPropertyTemperatureRangeError)
        }
    }

    /// The abscissa on segment `i` that belongs to the value `y`, where `y`
    /// lies between the ordinates of the knots of the segment.
    pub open spec fn inverse_on_segment(self, i: int, y: int) -> int {
        if y >= self.ys[i + 1] {
            self.xs[i + 1] as int
        } else {
            self.xs[i] + ((y - self.ys[i] + 1) * (self.xs[i + 1] - self.xs[i]) - 1) / (self.ys[i
                + 1] - self.ys[i])
        }
    }

    /// An invertible function does not fall.
    pub proof fn lemma_monotone(self, x1: int, x2: int)
        requires
            self.wf(),
            self.invertible(),
            self.in_domain(x1),
            self.in_domain(x2),
            x1 <= x2,
        ensures
            self.value_at(x1) <= self.value_at(x2),
    {
        let i1 = self.lemma_some_segment(x1);
        let i2 = self.lemma_some_segment(x2);
        self.lemma_value_on_segment(i1, x1);
        self.lemma_value_on_segment(i2, x2);
        self.lemma_segment_bounds(i1, x1);
        self.lemma_segment_bounds(i2, x2);
        assert(self.ys[i1] < self.ys[i1 + 1]);
        assert(self.ys[i2] < self.ys[i2 + 1]);
        if i1 == i2 {
            let dy = self.ys[i1 + 1] - self.ys[i1];
            let dx = self.xs[i1 + 1] - self.xs[i1];
            let t1 = x1 - self.xs[i1];
            let t2 = x2 - self.xs[i1];
            assert(dy * t1 <= dy * t2) by (nonlinear_arith)
                requires
                    dy > 0,
                    t1 <= t2,
            ;
            vstd::arithmetic::div_mod::lemma_div_is_ordered(dy * t1, dy * t2, dx);
        } else if i1 < i2 {
            assert(i1 + 1 < i2 ==> self.ys[i1 + 1] < self.ys[i2]);
        } else {
            // x2 <= xs[i2 + 1] <= xs[i1] <= x1 <= x2
            assert(i2 + 1 < i1 ==> self.xs[i2 + 1] < self.xs[i1]);
            assert(x1 == x2);
        }
    }

    /// A resolving function increases strictly from each integer to the
    /// next.
    pub proof fn lemma_strict_step(self, x: int)
        requires
            self.wf(),
            self.resolving(),
            self.in_domain(x),
            self.in_domain(x + 1),
        ensures
            self.value_at(x) < self.value_at(x + 1),
    {
        let k = self.lemma_some_segment(x + 1);
        assert(k > 0 ==> self.xs[k - 1] < self.xs[k]);
        let i = if self.xs[k] <= x {
            k
        } else {
            k - 1
        };
        assert(self.segment_contains(i, x));
        assert(self.segment_contains(i, x + 1));
        self.lemma_value_on_segment(i, x);
        self.lemma_value_on_segment(i, x + 1);
        let dy = self.ys[i + 1] - self.ys[i];
        let dx = self.xs[i + 1] - self.xs[i];
        let t = x - self.xs[i];
        assert(self.segment_resolves(i));
        assert(dy >= dx);
        assert((dy * (t + 1)) / dx > (dy * t) / dx) by {
            assert(dy * (t + 1) >= dy * t + dx) by (nonlinear_arith)
                requires
                    dy >= dx,
            ;
            vstd::arithmetic::div_mod::lemma_div_is_ordered(dy * t + dx, dy * (t + 1), dx);
            vstd::arithmetic::div_mod::lemma_div_plus_one(dy * t, dx);
        }
    }

    /// No more than one abscissa belongs to a value.
    pub proof fn lemma_inverse_unique(self, y: int, x1: int, x2: int)
        requires
            self.wf(),
            self.invertible(),
            self.is_inverse_at(y, x1),
            self.is_inverse_at(y, x2),
        ensures
            x1 == x2,
    {
        if x1 < x2 {
            self.lemma_monotone(x1 + 1, x2);
        } else if x2 < x1 {
            self.lemma_monotone(x2 + 1, x1);
        }
    }

    /// On the segment between whose knots the value `y` lies, the abscissa
    /// that belongs to `y` is the one that the segment gives.
    pub proof fn lemma_inverse_on_segment(self, i: int, y: int)
        requires
            self.wf(),
            self.invertible(),
            0 <= i < self.xs.len() - 1,
            self.ys[i] <= y <= self.ys[i + 1],
            y < self.ys[i + 1] || i == self.xs.len() - 2,
        ensures
            self.is_inverse_at(y, self.inverse_on_segment(i, y)),
            self.inverse_at(y) == self.inverse_on_segment(i, y),
            self.xs[i] <= self.inverse_on_segment(i, y) <= self.xs[i + 1],
    {
        let x = self.inverse_on_segment(i, y);
        let last = self.xs.len() - 1;
        assert(0 < i ==> self.xs[0] < self.xs[i]);
        assert(i + 1 < last ==> self.xs[i + 1] < self.xs[last]);
        assert(self.ys[i] < self.ys[i + 1]);
        if y >= self.ys[i + 1] {
            self.lemma_value_at_knot(last);
            assert(x == self.upper());
        } else {
            let dy = self.ys[i + 1] - self.ys[i];
            let dx = self.xs[i + 1] - self.xs[i];
            let u = y - self.ys[i];
            let t = ((u + 1) * dx - 1) / dy;
            lemma_inverse_fraction(dy, dx, u);
            assert(x == self.xs[i] + t);
            assert(self.segment_contains(i, x));
            assert(self.segment_contains(i, x + 1));
            self.lemma_value_on_segment(i, x);
            self.lemma_value_on_segment(i, x + 1);
            assert(self.value_at(x) == self.ys[i] + (dy * t) / dx);
            assert(self.value_at(x + 1) == self.ys[i] + (dy * (t + 1)) / dx);
        }
        assert(self.is_inverse_at(y, x));
        let chosen = self.inverse_at(y);
        self.lemma_inverse_unique(y, chosen, x);
    }

    /// Every value that the function reaches lies on a segment.
    pub proof fn lemma_value_segment(self, y: int) -> (i: int)
        requires
            self.wf(),
            self.invertible(),
            self.in_range(y),
        ensures
            0 <= i < self.xs.len() - 1,
            self.ys[i] <= y <= self.ys[i + 1],
            y < self.ys[i + 1] || i == self.xs.len() - 2,
    {
        self.lemma_value_segment_below(y, self.xs.len() - 1)
    }

    proof fn lemma_value_segment_below(self, y: int, hi: int) -> (i: int)
        requires
            self.wf(),
            self.invertible(),
            1 <= hi < self.xs.len(),
            self.ys[0] <= y <= self.ys[hi],
            y < self.ys[hi] || hi == self.xs.len() - 1,
        ensures
            0 <= i < self.xs.len() - 1,
            self.ys[i] <= y <= self.ys[i + 1],
            y < self.ys[i + 1] || i == self.xs.len() - 2,
        decreases hi,
    {
        if self.ys[hi - 1] <= y {
            hi - 1
        } else {
            self.lemma_value_segment_below(y, hi - 1)
        }
    }

    /// Where the function reaches a value, an abscissa of the domain
    /// belongs to it, and neither lies further from zero than the knot
    /// limit.
    pub proof fn lemma_inverse_bounds(self, y: int)
        requires
            self.wf(),
            self.invertible(),
            self.in_range(y),
        ensures
            self.is_inverse_at(y, self.inverse_at(y)),
            -KNOT_LIMIT <= y <= KNOT_LIMIT,
            -KNOT_LIMIT <= self.inverse_at(y) <= KNOT_LIMIT,
            self.inverse_lookup(y) == Ok::<i64, TuasLibError>(self.inverse_at(y) as i64),
    {
        let i = self.lemma_value_segment(y);
        self.lemma_inverse_on_segment(i, y);
        assert(-KNOT_LIMIT <= self.ys[0] && self.ys[self.ys.len() - 1] <= KNOT_LIMIT);
        assert(-KNOT_LIMIT <= self.xs[i] <= KNOT_LIMIT);
        assert(-KNOT_LIMIT <= self.xs[i + 1] <= KNOT_LIMIT);
    }

    /// The abscissa that belongs to the value of a resolving function at `x`
    /// is `x`: the inverse undoes the function.
    pub proof fn lemma_round_trip(self, x: int)
        requires
            self.wf(),
            self.invertible(),
            self.resolving(),
            self.in_domain(x),
        ensures
            self.in_range(self.value_at(x)),
            self.inverse_at(self.value_at(x)) == x,
            self.inverse_lookup(self.value_at(x)) == Ok::<i64, TuasLibError>(x as i64),
    {
        let y = self.value_at(x);
        self.lemma_value_at_knot(0);
        self.lemma_value_at_knot(self.xs.len() - 1);
        self.lemma_monotone(self.lower(), x);
        self.lemma_monotone(x, self.upper());
        if x < self.upper() {
            self.lemma_strict_step(x);
        }
        assert(self.is_inverse_at(y, x));
        self.lemma_inverse_bounds(y);
        self.lemma_inverse_unique(y, self.inverse_at(y), x);
        self.lemma_value_within_limit(x);
    }

    /// Every point of the domain lies on a segment.
    pub proof fn lemma_some_segment(self, x: int) -> (i: int)
        requires
            self.wf(),
            self.in_domain(x),
        ensures
            self.segment_contains(i, x),
    {
        self.lemma_segment_below(x, self.xs.len() - 1)
    }

    proof fn lemma_segment_below(self, x: int, hi: int) -> (i: int)
        requires
            self.wf(),
            1 <= hi < self.xs.len(),
            self.xs[0] <= x <= self.xs[hi],
        ensures
            self.segment_contains(i, x),
        decreases hi,
    {
        if self.xs[hi - 1] <= x {
            hi - 1
        } else {
            self.lemma_segment_below(x, hi - 1)
        }
    }

    /// A segment's line stays between the ordinates of its two knots.
    pub proof fn lemma_segment_bounds(self, i: int, x: int)
        requires
            self.wf(),
            self.segment_contains(i, x),
        ensures
            self.ys[i] <= self.ys[i + 1] ==> self.ys[i] <= self.on_segment(i, x) <= self.ys[i + 1],
            self.ys[i] >= self.ys[i + 1] ==> self.ys[i + 1] <= self.on_segment(i, x) <= self.ys[i],
            x == self.xs[i] ==> self.on_segment(i, x) == self.ys[i],
            x == self.xs[i + 1] ==> self.on_segment(i, x) == self.ys[i + 1],
    {
        let dy = self.ys[i + 1] - self.ys[i];
        let dx = x - self.xs[i];
        let span = self.xs[i + 1] - self.xs[i];
        assert(span > 0);
        lemma_scaled_fraction(dy, dx, span);
    }

    /// Where `x` lies on two segments, both lines give the same value: the
    /// function is well defined.
    pub proof fn lemma_value_on_segment(self, i: int, x: int)
        requires
            self.wf(),
            self.segment_contains(i, x),
        ensures
            self.value_at(x) == self.on_segment(i, x),
    {
        let j = choose|j: int| self.segment_contains(j, x);
        if j < i {
            // x <= xs[j + 1] <= xs[i] <= x
            assert(j + 1 < i ==> self.xs[j + 1] < self.xs[i]);
            self.lemma_segment_bounds(i, x);
            self.lemma_segment_bounds(j, x);
        } else if i < j {
            assert(i + 1 < j ==> self.xs[i + 1] < self.xs[j]);
            self.lemma_segment_bounds(i, x);
            self.lemma_segment_bounds(j, x);
        }
    }

    /// At a knot the function takes the knot's ordinate.
    pub proof fn lemma_value_at_knot(self, i: int)
        requires
            self.wf(),
            0 <= i < self.xs.len(),
        ensures
            self.in_domain(self.xs[i] as int),
            self.value_at(self.xs[i] as int) == self.ys[i],
    {
        let x = self.xs[i] as int;
        assert(0 < i ==> self.xs[0] < self.xs[i]);
        assert(i < self.xs.len() - 1 ==> self.xs[i] < self.xs[self.xs.len() - 1]);
        if i < self.xs.len() - 1 {
            self.lemma_value_on_segment(i, x);
            self.lemma_segment_bounds(i, x);
        } else {
            self.lemma_value_on_segment(i - 1, x);
            self.lemma_segment_bounds(i - 1, x);
        }
    }
}

/// `dy * dx / span` lies between zero and `dy` where `dx` lies between zero
/// and `span`, and takes both ends exactly.
pub proof fn lemma_scaled_fraction(dy: int, dx: int, span: int)
    requires
        0 <= dx <= span,
        0 < span,
    ensures
        dy >= 0 ==> 0 <= (dy * dx) / span <= dy,
        dy <= 0 ==> dy <= (dy * dx) / span <= 0,
        dx == 0 ==> (dy * dx) / span == 0,
        dx == span ==> (dy * dx) / span == dy,
{
    let q = (dy * dx) / span;
    let r = (dy * dx) % span;
    assert(dy * dx == span * q + r && 0 <= r < span) by {
        vstd::arithmetic::div_mod::lemma_fundamental_div_mod(dy * dx, span);
        vstd::arithmetic::div_mod::lemma_mod_bound(dy * dx, span);
    }
    if dy >= 0 {
        assert(0 <= dy * dx <= dy * span) by (nonlinear_arith)
            requires
                0 <= dx <= span,
                dy >= 0,
        ;
        assert(0 <= q <= dy) by (nonlinear_arith)
            requires
                dy * dx == span * q + r,
                0 <= r < span,
                0 <= dy * dx <= dy * span,
        ;
    }
    if dy <= 0 {
        assert(dy * span <= dy * dx <= 0) by (nonlinear_arith)
            requires
                0 <= dx <= span,
                dy <= 0,
        ;
        assert(dy <= q <= 0) by (nonlinear_arith)
            requires
                dy * dx == span * q + r,
                0 <= r < span,
                dy * span <= dy * dx <= 0,
        ;
    }
    if dx == 0 {
        assert(dy * dx == 0) by (nonlinear_arith)
            requires
                dx == 0,
        ;
    }
    if dx == span {
        assert(q == dy) by (nonlinear_arith)
            requires
                dy * dx == span * q + r,
                0 <= r < span,
                dx == span,
        ;
    }
}

/// For a value `u` above the lower knot of a segment that rises by `dy` over
/// the width `dx`, `((u + 1) dx - 1) / dy` is the greatest offset at which
/// the segment does not exceed the value.
pub proof fn lemma_inverse_fraction(dy: int, dx: int, u: int)
    requires
        0 < dx,
        0 <= u < dy,
    ensures
        0 <= ((u + 1) * dx - 1) / dy < dx,
        (dy * (((u + 1) * dx - 1) / dy)) / dx <= u,
        (dy * (((u + 1) * dx - 1) / dy + 1)) / dx > u,
{
    let n = (u + 1) * dx - 1;
    let t = n / dy;
    let r = n % dy;
    assert(n == dy * t + r && 0 <= r < dy) by {
        vstd::arithmetic::div_mod::lemma_fundamental_div_mod(n, dy);
        vstd::arithmetic::div_mod::lemma_mod_bound(n, dy);
    }
    assert(0 <= n < dy * dx) by (nonlinear_arith)
        requires
            n == (u + 1) * dx - 1,
            0 < dx,
            0 <= u < dy,
    ;
    assert(0 <= t < dx) by (nonlinear_arith)
        requires
            n == dy * t + r,
            0 <= r < dy,
            0 <= n < dy * dx,
    ;
    // dy t <= n < (u + 1) dx
    let a = dy * t;
    let qa = a / dx;
    let ra = a % dx;
    assert(a == dx * qa + ra && 0 <= ra < dx) by {
        vstd::arithmetic::div_mod::lemma_fundamental_div_mod(a, dx);
        vstd::arithmetic::div_mod::lemma_mod_bound(a, dx);
    }
    assert(qa <= u) by (nonlinear_arith)
        requires
            a == dx * qa + ra,
            0 <= ra < dx,
            a <= (u + 1) * dx - 1,
            0 < dx,
    ;
    // dy (t + 1) > n, so dy (t + 1) >= (u + 1) dx
    let b = dy * (t + 1);
    let qb = b / dx;
    let rb = b % dx;
    assert(b == dx * qb + rb && 0 <= rb < dx) by {
        vstd::arithmetic::div_mod::lemma_fundamental_div_mod(b, dx);
        vstd::arithmetic::div_mod::lemma_mod_bound(b, dx);
    }
    assert(b >= (u + 1) * dx) by (nonlinear_arith)
        requires
            b == dy * (t + 1),
            n == dy * t + r,
            0 <= r < dy,
            n == (u + 1) * dx - 1,
    ;
    assert(qb > u) by (nonlinear_arith)
        requires
            b == dx * qb + rb,
            0 <= rb < dx,
            b >= (u + 1) * dx,
            0 < dx,
    ;
}

/// Looks the function of the table `(xs, ys)` up at `x`.
pub fn table_lookup(xs: &Vec<i64>, ys: &Vec<i64>, x: i64) -> (result: Result<i64, TuasLibError>)
    requires
        (Table { xs: xs@, ys: ys@ }).wf(),
    ensures
        result == (Table { xs: xs@, ys: ys@ }).lookup(x as int),
        result matches Ok(y) ==> y == (Table { xs: xs@, ys: ys@ }).value_at(x as int),
{
    let ghost table = Table { xs: xs@, ys: ys@ };
    let n: usize = xs.len();
    if x < xs[0] || x > xs[n - 1] {
        return Err(TuasLibError::ThermophysicalPropertyTemperatureRangeError);
    }
    let mut lo: usize = 0;
    let mut hi: usize = n - 1;
    while hi - lo > 1
        invariant
            table == (Table { xs: xs@, ys: ys@ }),
            table.wf(),
            n == xs.len(),
            lo < hi <= n - 1,
            xs[lo as int] <= x <= xs[hi as int],
        decreases hi - lo,
    {
        let mid: usize = lo + (hi - lo) / 2;
        if xs[mid] <= x {
            lo = mid;
        } else {
            hi = mid;
        }
    }
    let dy: i128 = ys[hi] as i128 - ys[lo] as i128;
    let dx: i128 = x as i128 - xs[lo] as i128;
    let span: i128 = xs[hi] as i128 - xs[lo] as i128;
    proof {
        assert(table.segment_contains(lo as int, x as int));
        table.lemma_value_on_segment(lo as int, x as int);
        table.lemma_segment_bounds(lo as int, x as int);
        lemma_scaled_fraction(dy as int, dx as int, span as int);
        assert(-0x8000_0000_0000_0000 <= dy <= 0x8000_0000_0000_0000);
        assert(0 <= dx <= 0x8000_0000_0000_0000);
        assert(i128::MIN <= dy * dx <= i128::MAX) by (nonlinear_arith)
            requires
                -0x8000_0000_0000_0000 <= dy <= 0x8000_0000_0000_0000,
                0 <= dx <= 0x8000_0000_0000_0000,
        ;
    }
    let product: i128 = dy * dx;
    let quotient: i128 = match product.checked_div_euclid(span) {
        Some(q) => q,
        None => 0,
    };
    Ok((ys[lo] as i128 + quotient) as i64)
}

/// Looks up the abscissa that belongs to the value `y` of the function of
/// the table `(xs, ys)`.
pub fn table_inverse_lookup(xs: &Vec<i64>, ys: &Vec<i64>, y: i64) -> (result: Result<
    i64,
    TuasLibError,
>)
    requires
        (Table { xs: xs@, ys: ys@ }).wf(),
        (Table { xs: xs@, ys: ys@ }).invertible(),
    ensures
        result == (Table { xs: xs@, ys: ys@ }).inverse_lookup(y as int),
        result matches Ok(x) ==> (Table { xs: xs@, ys: ys@ }).is_inverse_at(y as int, x as int),
{
    let ghost table = Table { xs: xs@, ys: ys@ };
    let n: usize = xs.len();
    if y < ys[0] || y > ys[n - 1] {
        return Err(TuasLibError::ThermophysicalPropertyTemperatureRangeError);
    }
    let mut lo: usize = 0;
    let mut hi: usize = n - 1;
    while hi - lo > 1
        invariant
            table == (Table { xs: xs@, ys: ys@ }),
            table.wf(),
            n == xs.len(),
            n == ys.len(),
            lo < hi <= n - 1,
            ys[lo as int] <= y <= ys[hi as int],
            y < ys[hi as int] || hi == n - 1,
        decreases hi - lo,
    {
        let mid: usize = lo + (hi - lo) / 2;
        if ys[mid] <= y {
            lo = mid;
        } else {
            hi = mid;
        }
    }
    proof {
        table.lemma_inverse_on_segment(lo as int, y as int);
        table.lemma_inverse_bounds(y as int);
    }
    if y >= ys[hi] {
        return Ok(xs[hi]);
    }
    let dy: i128 = ys[hi] as i128 - ys[lo] as i128;
    let dx: i128 = xs[hi] as i128 - xs[lo] as i128;
    let u: i128 = y as i128 - ys[lo] as i128;
    proof {
        assert(-KNOT_LIMIT <= ys[lo as int] <= KNOT_LIMIT);
        assert(-KNOT_LIMIT <= ys[hi as int] <= KNOT_LIMIT);
        assert(-KNOT_LIMIT <= xs[lo as int] <= KNOT_LIMIT);
        assert(-KNOT_LIMIT <= xs[hi as int] <= KNOT_LIMIT);
        assert(xs[lo as int] < xs[hi as int]);
        lemma_inverse_fraction(dy as int, dx as int, u as int);
        assert(0 < (u + 1) * dx <= i128::MAX) by (nonlinear_arith)
            requires
                0 <= u < 0x8000_0000_0000_0000,
                0 < dx <= 0x8000_0000_0000_0000,
        ;
    }
    let numerator: i128 = (u + 1) * dx - 1;
    let offset: i128 = numerator / dy;
    Ok((xs[lo] as i128 + offset) as i64)
}

/// Whether `(xs, ys)` is a well-formed table.
pub fn table_is_wf(xs: &Vec<i64>, ys: &Vec<i64>) -> (wf: bool)
    ensures
        wf == (Table { xs: xs@, ys: ys@ }).wf(),
{
    let n: usize = xs.len();
    if ys.len() != n || n < 2 {
        return false;
    }
    if !all_within_knot_limit(xs) || !all_within_knot_limit(ys) {
        return false;
    }
    is_strictly_increasing(xs)
}

/// Whether every element lies within the knot limit.
pub fn all_within_knot_limit(s: &Vec<i64>) -> (within: bool)
    ensures
        within == within_knot_limit(s@),
{
    let mut i: usize = 0;
    while i < s.len()
        invariant
            i <= s.len(),
            forall|k: int| 0 <= k < i ==> -KNOT_LIMIT <= #[trigger] s@[k] <= KNOT_LIMIT,
        decreases s.len() - i,
    {
        if s[i] < -KNOT_LIMIT || s[i] > KNOT_LIMIT {
            return false;
        }
        i = i + 1;
    }
    true
}

/// Whether each element is less than every later one.
pub fn is_strictly_increasing(s: &Vec<i64>) -> (increasing: bool)
    ensures
        increasing == strictly_increasing(s@),
{
    if s.len() < 2 {
        return true;
    }
    let mut i: usize = 1;
    while i < s.len()
        invariant
            1 <= i <= s.len(),
            forall|a: int, b: int| 0 <= a < b < i ==> s@[a] < s@[b],
        decreases s.len() - i,
    {
        if s[i - 1] >= s[i] {
            return false;
        }
        proof {
            assert forall|a: int, b: int| 0 <= a < b < i + 1 implies s@[a] < s@[b] by {
                if b == i && a < i - 1 {
                    assert(s@[a] < s@[i - 1]);
                }
            }
        }
        i = i + 1;
    }
    true
}

/// The `i`-th of `samples` temperatures spread evenly from `lower` to
/// `upper`, rounded towards `lower`.
pub open spec fn sample_temperature(lower: i64, upper: i64, samples: nat, i: int) -> int {
    lower + ((upper - lower) * i) / (samples - 1)
}

/// The temperatures at which a curve fit is sampled for a property curve:
/// `samples` temperatures spread evenly from `lower` to `upper`, both
/// included.
///
/// Fails with a value that is not representable where a limit lies beyond
/// the knot limit, and with a dimension mismatch for fewer than two samples
/// or more samples than there are temperatures from `lower` to `upper`.
pub fn sample_temperatures(lower: i64, upper: i64, samples: usize) -> (result: Result<
    Vec<i64>,
    TuasLibError,
>)
    ensures
        result is Ok <==> -KNOT_LIMIT <= lower && upper <= KNOT_LIMIT && samples >= 2 && upper
            - lower >= samples - 1,
        result matches Err(e) ==> e == (if -KNOT_LIMIT <= lower && upper <= KNOT_LIMIT {
            TuasLibError::DimensionMismatch
        } else {
            TuasLibError::ValueNotRepresentable
        }),
        result matches Ok(temperatures) ==> {
            &&& temperatures@.len() == samples
            &&& temperatures@.first() == lower
            &&& temperatures@.last() == upper
            &&& strictly_increasing(temperatures@)
            &&& within_knot_limit(temperatures@)
            &&& forall|i: int|
                0 <= i < samples ==> #[trigger] temperatures@[i] == sample_temperature(
                    lower,
                    upper,
                    samples as nat,
                    i,
                )
        },
{
    if lower < -KNOT_LIMIT || upper > KNOT_LIMIT {
        return Err(TuasLibError::ValueNotRepresentable);
    }
    if samples < 2 || upper <= lower {
        return Err(TuasLibError::DimensionMismatch);
    }
    let span: i128 = upper as i128 - lower as i128;
    let last: i128 = (samples - 1) as i128;
    if span < last {
        return Err(TuasLibError::DimensionMismatch);
    }
    let mut temperatures: Vec<i64> = Vec::new();
    let mut i: usize = 0;
    while i < samples
        invariant
            i <= samples,
            samples >= 2,
            last == samples - 1,
            span == upper - lower,
            0 < last <= span <= 2 * KNOT_LIMIT,
            -KNOT_LIMIT <= lower,
            upper <= KNOT_LIMIT,
            temperatures@.len() == i,
            forall|k: int|
                0 <= k < i ==> #[trigger] temperatures@[k] == sample_temperature(
                    lower,
                    upper,
                    samples as nat,
                    k,
                ),
            forall|k: int| 0 <= k < i ==> lower <= #[trigger] temperatures@[k] <= upper,
            forall|a: int, b: int| 0 <= a < b < i ==> temperatures@[a] < temperatures@[b],
        decreases samples - i,
    {
        proof {
            lemma_scaled_fraction(span as int, i as int, last as int);
            assert(0 <= span * i <= i128::MAX) by (nonlinear_arith)
                requires
                    0 <= i <= last,
                    0 < last <= span <= 0x8000_0000_0000_0000,
            ;
            if i > 0 {
                // span (i - 1) / last < span i / last, as span >= last
                let before = span * (i - 1);
                assert(span * i >= before + last) by (nonlinear_arith)
                    requires
                        before == span * (i - 1),
                        span >= last,
                ;
                vstd::arithmetic::div_mod::lemma_div_is_ordered(
                    before + last,
                    span * i,
                    last as int,
                );
                vstd::arithmetic::div_mod::lemma_div_plus_one(before, last as int);
                assert(temperatures@[i - 1] == sample_temperature(
                    lower,
                    upper,
                    samples as nat,
                    i - 1,
                ));
            }
        }
        let offset: i128 = (span * (i as i128)) / last;
        let temperature: i64 = (lower as i128 + offset) as i64;
        proof {
            assert forall|a: int, b: int| 0 <= a < b < i + 1 implies temperatures@.push(
                temperature,
            )[a] < temperatures@.push(temperature)[b] by {
                if b == i && a < i - 1 {
                    assert(temperatures@[a] < temperatures@[i - 1]);
                }
            }
        }
        temperatures.push(temperature);
        i = i + 1;
    }
    proof {
        lemma_scaled_fraction(span as int, 0, last as int);
        lemma_scaled_fraction(span as int, last as int, last as int);
        assert(temperatures@[0] == sample_temperature(lower, upper, samples as nat, 0));
        assert(temperatures@[samples - 1] == sample_temperature(
            lower,
            upper,
            samples as nat,
            samples - 1,
        ));
    }
    Ok(temperatures)
}

/// A copy of a vector of integers.
pub fn copy_of(v: &Vec<i64>) -> (copy: Vec<i64>)
    ensures
        copy@ == v@,
{
    let mut copy: Vec<i64> = Vec::new();
    let mut i: usize = 0;
    while i < v.len()
        invariant
            i <= v.len(),
            copy@ == v@.take(i as int),
        decreases v.len() - i,
    {
        copy.push(v[i]);
        assert(copy@ == v@.take(i + 1));
        i = i + 1;
    }
    assert(v@.take(v.len() as int) == v@);
    copy
}

/// A material property as a function of temperature, given by a table of
/// measured or fitted points with straight lines between them. Outside the
/// table's range the property is not defined, and asking for it is an error.
#[derive(Debug, PartialEq)]
pub struct PropertyCurve {
    temperatures: Vec<i64>,
    values: Vec<i64>,
}

impl View for PropertyCurve {
    type V = Table;

    closed spec fn view(&self) -> Table {
        Table { xs: self.temperatures@, ys: self.values@ }
    }
}

impl PropertyCurve {
    /// Every curve is a well-formed table.
    #[verifier::type_invariant]
    pub open spec fn well_formed(self) -> bool {
        self@.wf()
    }

    /// The curve through the points `(temperatures[i], values[i])`, if they
    /// form a table: as many values as temperatures, at least two,
    /// temperatures strictly increasing, every number within `KNOT_LIMIT`.
    pub fn new(temperatures: Vec<i64>, values: Vec<i64>) -> (curve: Option<PropertyCurve>)
        ensures
            curve is Some <==> (Table { xs: temperatures@, ys: values@ }).wf(),
            curve matches Some(c) ==> c@ == (Table { xs: temperatures@, ys: values@ }),
    {
        if table_is_wf(&temperatures, &values) {
            Some(PropertyCurve { temperatures, values })
        } else {
            None
        }
    }

    /// The curve that has the value `value` from `lower` to `upper`.
    pub fn constant(lower: i64, upper: i64, value: i64) -> (curve: Option<PropertyCurve>)
        ensures
            curve is Some <==> (Table { xs: seq![lower, upper], ys: seq![value, value] }).wf(),
            curve matches Some(c) ==> c@ == (Table { xs: seq![lower, upper], ys: seq![value, value] }),
    {
        let mut temperatures: Vec<i64> = Vec::new();
        temperatures.push(lower);
        temperatures.push(upper);
        let mut values: Vec<i64> = Vec::new();
        values.push(value);
        values.push(value);
        assert(temperatures@ == seq![lower, upper]);
        assert(values@ == seq![value, value]);
        PropertyCurve::new(temperatures, values)
    }

    /// The property at `temperature`: a range error outside the table, never
    /// a clamped or extrapolated value.
    pub fn value_at(&self, temperature: i64) -> (result: Result<i64, TuasLibError>)
        ensures
            result == self@.lookup(temperature as int),
            result matches Ok(y) ==> y == self@.value_at(temperature as int),
            result is Ok <==> self@.lower() <= temperature <= self@.upper(),
            result matches Err(e) ==> e
                == TuasLibError::ThermophysicalPropertyTemperatureRangeError,
    {
        proof {
            use_type_invariant(self);
        }
        table_lookup(&self.temperatures, &self.values, temperature)
    }

    /// The temperature at which the property has the value `value`, for a
    /// property that increases strictly with temperature: the highest
    /// temperature at which the property does not exceed `value`. It is a
    /// range error where the table does not reach `value`.
    pub fn temperature_at(&self, value: i64) -> (result: Result<i64, TuasLibError>)
        requires
            self@.invertible(),
        ensures
            result == self@.inverse_lookup(value as int),
            result matches Ok(t) ==> self@.is_inverse_at(value as int, t as int),
    {
        proof {
            use_type_invariant(self);
        }
        table_inverse_lookup(&self.temperatures, &self.values, value)
    }

    /// The lowest temperature of the table.
    pub fn min_temperature(&self) -> (t: i64)
        ensures
            t == self@.lower(),
    {
        proof {
            use_type_invariant(self);
        }
        self.temperatures[0]
    }

    /// The highest temperature of the table.
    pub fn max_temperature(&self) -> (t: i64)
        ensures
            t == self@.upper(),
    {
        proof {
            use_type_invariant(self);
        }
        self.temperatures[self.temperatures.len() - 1]
    }

    /// Whether the values increase strictly, so that `temperature_at` applies.
    pub fn is_invertible(&self) -> (invertible: bool)
        ensures
            invertible == self@.invertible(),
    {
        is_strictly_increasing(&self.values)
    }

    /// Whether the property rises on every segment at least as much as the
    /// segment is wide.
    pub fn is_resolving(&self) -> (resolving: bool)
        ensures
            resolving == self@.resolving(),
    {
        proof {
            use_type_invariant(self);
        }
        let n: usize = self.temperatures.len();
        let mut i: usize = 0;
        while i + 1 < n
            invariant
                n == self.temperatures.len(),
                n == self.values.len(),
                i < n,
                forall|k: int| 0 <= k < i ==> #[trigger] self@.segment_resolves(k),
            decreases n - i,
        {
            if self.values[i + 1] as i128 - (self.values[i] as i128) < self.temperatures[i
                + 1] as i128 - self.temperatures[i] as i128 {
                assert(!self@.segment_resolves(i as int));
                return false;
            }
            assert(self@.segment_resolves(i as int));
            i = i + 1;
        }
        true
    }

    /// Whether every value is greater than zero.
    pub fn is_positive(&self) -> (positive: bool)
        ensures
            positive == self@.positive(),
    {
        let mut i: usize = 0;
        while i < self.values.len()
            invariant
                i <= self.values.len(),
                forall|k: int| 0 <= k < i ==> #[trigger] self.values@[k] > 0,
            decreases self.values.len() - i,
        {
            if self.values[i] <= 0 {
                assert(self@.ys[i as int] <= 0);
                return false;
            }
            i = i + 1;
        }
        true
    }

    /// A copy of the curve.
    pub fn duplicate(&self) -> (copy: PropertyCurve)
        ensures
            copy@ == self@,
    {
        proof {
            use_type_invariant(self);
        }
        PropertyCurve { temperatures: copy_of(&self.temperatures), values: copy_of(&self.values) }
    }
}

impl Clone for PropertyCurve {
    fn clone(&self) -> (copy: PropertyCurve)
        ensures
            copy@ == self@,
    {
        self.duplicate()
    }
}

} // verus!
