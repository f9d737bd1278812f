use vstd::prelude::*;

verus! {

/// Lengths are fixed-point with this many steps per unit (thousandths).
pub const MILLI: i64 = 1000;

/// The most bars a graph can lay out.
pub const MAX_BARS: usize = 25;

/// The largest magnitude accepted for a layout length, in thousandths.
pub const COORD_LIMIT: i64 = 1_099_511_627_776;

/// The largest magnitude of a bar's height, in thousandths.
pub const HEIGHT_LIMIT: i64 = 1_125_899_906_842_624;

/// How far left of the graph's origin the first slot starts, in thousandths.
pub const LEFT_MARGIN: i64 = 400_000;

/// How far above the graph's origin the bars stand, in thousandths.
pub const RAISE: i64 = 14_000;

/// A bar's vertical shift moves by this many half-thousandths for each
/// thousandth of scale, the other way: `1 / -0.08 = -12.5` units per unit,
/// which keeps the bar's base in place as its top moves.
pub const PIVOT: i64 = 25;

/// What the configuration says of one bar: its label and its starting height
/// in thousandths.
pub struct BarSpec {
    pub name: String,
    pub height: i64,
}

/// One bar of a graph.
///
/// `widen_num / widen_den` is the width added to its horizontal scale.
/// `scale_y` is the bar's vertical scale in thousandths; `shift_y` is its
/// vertical translation in half-thousandths (2000 steps per unit).
#[derive(Clone, Debug)]
pub struct Bar {
    pub index: u32,
    pub name: String,
    pub x: i64,
    pub y: i64,
    pub widen_num: u32,
    pub widen_den: u32,
    pub scale_y: i64,
    pub shift_y: i64,
}

/// Why a graph operation did nothing.
#[derive(Clone, Copy, Debug, PartialEq, Eq, Structural)]
pub enum GraphError {
    /// More bars were configured than a graph can lay out.
    TooManyBars,
    /// No bar stands at the requested index.
    NoSuchBar,
}

/// A horizontal row of bars, laid out from a list of bar specifications.
pub struct BarGraph {
    pub offset: i64,
    pub spacing: i64,
    pub bars: Vec<Bar>,
}

pub open spec fn coord_ok(v: i64) -> bool {
    -COORD_LIMIT <= v <= COORD_LIMIT
}

pub open spec fn height_ok(h: int) -> bool {
    -HEIGHT_LIMIT <= h <= HEIGHT_LIMIT
}

/// The width added to each bar's horizontal scale, as a fraction
/// `(numerator, denominator)`: `2 / (n - 10)` for more than ten bars, else `2`.
pub open spec fn widen_of(n: u32) -> (u32, u32) {
    if n > 10 {
        (2, (n - 10) as u32)
    } else {
        (2, 1)
    }
}

/// The horizontal position of bar `i` of `n`: a step of `span / n` per index,
/// plus `spacing` per index on top of it.
pub open spec fn bar_x(origin_x: int, offset: int, spacing: int, span: int, n: int, i: int) -> int {
    origin_x - LEFT_MARGIN + offset + (span / n) * i + spacing * i
}

/// The vertical scale of a bar of the given height.
pub open spec fn scale_for(height: int) -> int {
    MILLI + height
}

/// The vertical shift of a bar of the given height.
pub open spec fn shift_for(height: int) -> int {
    -(PIVOT * height)
}

/// Scale and shift after raising the top by `delta`.
pub open spec fn raised(scale_y: int, shift_y: int, delta: int) -> (int, int) {
    (scale_y + delta, shift_y - PIVOT * delta)
}

/// Scale and shift after lowering the top by `delta`.
pub open spec fn lowered(scale_y: int, shift_y: int, delta: int) -> (int, int) {
    (scale_y - delta, shift_y + PIVOT * delta)
}

/// The width compensation for a graph of `n` bars.
pub fn width_bonus(n: u32) -> (r: (u32, u32))
    ensures
        r == widen_of(n),
{
    if n > 10 {
        (2, n - 10)
    } else {
        (2, 1)
    }
}

impl Bar {
    /// The scale and shift move together, as set up by the graph.
    pub open spec fn wf(&self) -> bool {
        &&& height_ok(self.scale_y - MILLI)
        &&& self.shift_y == shift_for(self.scale_y - MILLI)
    }

    /// The bar's height in thousandths.
    pub open spec fn height_of(&self) -> int {
        self.scale_y - MILLI
    }

    pub fn height(&self) -> (r: i64)
        requires
            self.wf(),
        ensures
            r == self.height_of(),
    {
        self.scale_y - MILLI
    }

    /// Raises the bar's top by `delta` thousandths, its base staying in place.
    pub fn increase_height(&mut self, delta: i64)
        requires
            old(self).wf(),
            height_ok(old(self).height_of() + delta),
        ensures
            (final(self).scale_y as int, final(self).shift_y as int) == raised(
                old(self).scale_y as int,
                old(self).shift_y as int,
                delta as int,
            ),
            final(self).wf(),
            final(self).index == old(self).index,
            final(self).name == old(self).name,
            final(self).x == old(self).x,
            final(self).y == old(self).y,
            final(self).widen_num == old(self).widen_num,
            final(self).widen_den == old(self).widen_den,
    {
        self.scale_y = self.scale_y + delta;
        self.shift_y = self.shift_y - PIVOT * delta;
    }

    /// Lowers the bar's top by `delta` thousandths, its base staying in place.
    pub fn decrease_height(&mut self, delta: i64)
        requires
            old(self).wf(),
            height_ok(old(self).height_of() - delta),
        ensures
            (final(self).scale_y as int, final(self).shift_y as int) == lowered(
                old(self).scale_y as int,
                old(self).shift_y as int,
                delta as int,
            ),
            final(self).wf(),
            final(self).index == old(self).index,
            final(self).name == old(self).name,
            final(self).x == old(self).x,
            final(self).y == old(self).y,
            final(self).widen_num == old(self).widen_num,
            final(self).widen_den == old(self).widen_den,
    {
        self.scale_y = self.scale_y - delta;
        self.shift_y = self.shift_y + PIVOT * delta;
    }

    /// Brings the bar to `height` thousandths by raising or lowering it.
    pub fn set_height(&mut self, height: i64)
        requires
            old(self).wf(),
            height_ok(height as int),
        ensures
            final(self).scale_y == scale_for(height as int),
            final(self).shift_y == shift_for(height as int),
            final(self).wf(),
            final(self).index == old(self).index,
            final(self).name == old(self).name,
            final(self).x == old(self).x,
            final(self).y == old(self).y,
            final(self).widen_num == old(self).widen_num,
            final(self).widen_den == old(self).widen_den,
    {
        let current: i64 = self.scale_y - MILLI;
        if height >= current {
            self.increase_height(height - current);
        } else {
            self.decrease_height(current - height);
        }
    }
}

/// Whether `b` is bar `i` of a graph of `n` bars, laid out from `spec`.
pub open spec fn placed(
    b: Bar,
    spec: BarSpec,
    origin_x: int,
    origin_y: int,
    offset: int,
    spacing: int,
    span: int,
    n: int,
    i: int,
) -> bool {
    &&& b.index == i
    &&& b.name@ == spec.name@
    &&& b.x == bar_x(origin_x, offset, spacing, span, n, i)
    &&& b.y == origin_y - RAISE
    &&& (b.widen_num, b.widen_den) == widen_of(n as u32)
    &&& b.scale_y == scale_for(spec.height as int)
    &&& b.shift_y == shift_for(spec.height as int)
}

impl BarGraph {
    /// Every bar's scale and shift move together.
    pub open spec fn wf(&self) -> bool {
        forall|i: int| 0 <= i < self.bars@.len() ==> (#[trigger] self.bars@[i]).wf()
    }

    /// An empty graph with the given layout settings, in thousandths.
    pub fn new(offset: i64, spacing: i64) -> (r: BarGraph)
        ensures
            r.offset == offset,
            r.spacing == spacing,
            r.bars@.len() == 0,
            r.wf(),
    {
        BarGraph { offset, spacing, bars: Vec::new() }
    }

    /// Lays out one bar per specification along `span` thousandths, from the
    /// graph's origin. With more than `MAX_BARS` specifications no bar is made.
    pub fn setup(&mut self, origin_x: i64, origin_y: i64, span: i64, specs: &Vec<BarSpec>) -> (r:
        Result<(), GraphError>)
        requires
            coord_ok(origin_x),
            coord_ok(origin_y),
            coord_ok(old(self).offset),
            coord_ok(old(self).spacing),
            0 <= span <= COORD_LIMIT,
            forall|i: int| 0 <= i < specs@.len() ==> height_ok(#[trigger] specs@[i].height as int),
        ensures
            final(self).offset == old(self).offset,
            final(self).spacing == old(self).spacing,
            final(self).wf(),
            specs@.len() > MAX_BARS ==> r == Err::<(), GraphError>(GraphError::TooManyBars)
                && final(self).bars@.len() == 0,
            specs@.len() <= MAX_BARS ==> r is Ok && final(self).bars@.len() == specs@.len()
                && forall|i: int|
                0 <= i < specs@.len() ==> placed(
                    #[trigger] final(self).bars@[i],
                    specs@[i],
                    origin_x as int,
                    origin_y as int,
                    old(self).offset as int,
                    old(self).spacing as int,
                    span as int,
                    specs@.len() as int,
                    i,
                ),
    {
        self.bars = Vec::new();
        let n: usize = specs.len();
        if n > MAX_BARS {
            return Err(GraphError::TooManyBars);
        }
        if n == 0 {
            return Ok(());
        }
        let widen = width_bonus(n as u32);
        let step: i64 = (span as u64 / n as u64) as i64;
        let y: i64 = origin_y - RAISE;
        let mut i: usize = 0;
        while i < n
            invariant
                0 < n <= MAX_BARS,
                n == specs@.len(),
                i <= n,
                0 <= step <= span <= COORD_LIMIT,
                step as int == (span as int) / (n as int),
                widen == widen_of(n as u32),
                y == origin_y - RAISE,
                coord_ok(origin_x),
                coord_ok(self.offset),
                coord_ok(self.spacing),
                self.offset == old(self).offset,
                self.spacing == old(self).spacing,
                forall|k: int| 0 <= k < n ==> height_ok(#[trigger] specs@[k].height as int),
                self.bars@.len() == i,
                forall|k: int|
                    0 <= k < i ==> placed(
                        #[trigger] self.bars@[k],
                        specs@[k],
                        origin_x as int,
                        origin_y as int,
                        self.offset as int,
                        self.spacing as int,
                        span as int,
                        n as int,
                        k,
                    ),
            decreases n - i,
        {
            let spec = &specs[i];
            let h: i64 = spec.height;
            assert(height_ok(h as int));
            assert(-HEIGHT_LIMIT * PIVOT <= PIVOT * h <= HEIGHT_LIMIT * PIVOT) by (nonlinear_arith)
                requires
                    -HEIGHT_LIMIT <= h <= HEIGHT_LIMIT,
            ;
            let k: i64 = i as i64;
            assert(-COORD_LIMIT * 24 <= step * k <= COORD_LIMIT * 24) by (nonlinear_arith)
                requires
                    0 <= step <= COORD_LIMIT,
                    0 <= k <= 24,
            ;
            assert(-COORD_LIMIT * 24 <= self.spacing * k <= COORD_LIMIT * 24) by (nonlinear_arith)
                requires
                    -COORD_LIMIT <= self.spacing <= COORD_LIMIT,
                    0 <= k <= 24,
            ;
            let x: i64 = origin_x - LEFT_MARGIN + self.offset + step * k + self.spacing * k;
            let bar = Bar {
                index: i as u32,
                name: spec.name.clone(),
                x,
                y,
                widen_num: widen.0,
                widen_den: widen.1,
                scale_y: MILLI + h,
                shift_y: -(PIVOT * h),
            };
            self.bars.push(bar);
            i = i + 1;
        }
        Ok(())
    }

    /// Brings the bar at `index` to `height` whole units.
    pub fn set_bar_height(&mut self, index: usize, height: u32) -> (r: Result<(), GraphError>)
        requires
            old(self).wf(),
        ensures
            final(self).wf(),
            final(self).offset == old(self).offset,
            final(self).spacing == old(self).spacing,
            final(self).bars@.len() == old(self).bars@.len(),
            index >= old(self).bars@.len() ==> r == Err::<(), GraphError>(GraphError::NoSuchBar)
                && final(self).bars@ == old(self).bars@,
            index < old(self).bars@.len() ==> r is Ok && forall|j: int|
                0 <= j < old(self).bars@.len() && j != index ==> #[trigger] final(self).bars@[j]
                    == old(self).bars@[j],
            index < old(self).bars@.len() ==> ({
                let (b, a) = (old(self).bars@[index as int], final(self).bars@[index as int]);
                &&& a.scale_y == scale_for(height * MILLI)
                &&& a.shift_y == shift_for(height * MILLI)
                &&& a.index == b.index
                &&& a.name == b.name
                &&& a.x == b.x
                &&& a.y == b.y
                &&& a.widen_num == b.widen_num
                &&& a.widen_den == b.widen_den
            }),
    {
        if index >= self.bars.len() {
            return Err(GraphError::NoSuchBar);
        }
        let target: i64 = height as i64 * MILLI;
        let mut bar = self.bars.remove(index);
        bar.set_height(target);
        self.bars.insert(index, bar);
        assert(forall|j: int| 0 <= j < self.bars@.len() && j != index ==> self.bars@[j] == old(self).bars@[j]);
        Ok(())
    }
}

/// Raising a bar and then lowering it by the same amount gives back its scale
/// and its shift.
pub proof fn lemma_raise_then_lower(scale_y: int, shift_y: int, delta: int)
    ensures
        ({
            let (s, t) = raised(scale_y, shift_y, delta);
            lowered(s, t, delta)
        }) == (scale_y, shift_y),
{
}

/// Bars of one graph stand at distinct positions whenever each index moves a
/// bar by a non-zero amount (`span / n + spacing`).
pub proof fn lemma_positions_distinct(
    origin_x: int,
    offset: int,
    spacing: int,
    span: int,
    n: int,
    i: int,
    j: int,
)
    requires
        1 <= n <= MAX_BARS,
        0 <= i < n,
        0 <= j < n,
        i != j,
        span / n + spacing != 0,
    ensures
        bar_x(origin_x, offset, spacing, span, n, i) != bar_x(origin_x, offset, spacing, span, n, j),
{
    let d = span / n + spacing;
    assert((span / n) * i + spacing * i == d * i) by (nonlinear_arith)
        requires
            d == span / n + spacing,
    ;
    assert((span / n) * j + spacing * j == d * j) by (nonlinear_arith)
        requires
            d == span / n + spacing,
    ;
    assert(d * i != d * j) by (nonlinear_arith)
        requires
            d != 0,
            i != j,
    ;
}

} // verus!
