use vstd::prelude::*;

verus! {

/// Shared pool of units that bar controllers draw from when the minigame is limited.
pub struct MiniGame {
    pub limited: bool,
    pub available: u32,
}

impl MiniGame {
    pub fn new(limited: bool, available: u32) -> (r: MiniGame)
        ensures
            r.limited == limited,
            r.available == available,
    {
        MiniGame { limited, available }
    }
}

/// A pressed mouse button, as a controller sees it: the primary button raises
/// the count, any other button lowers it.
#[derive(Clone, Copy, Debug, PartialEq, Eq, Structural)]
pub enum Click {
    Left,
    Right,
}

/// An interactive counter, kept within `[minimum, maximum]`, whose value is
/// pushed every frame as the height of the bar at `bar_index`.
pub struct BarController {
    pub bar_index: i32,
    pub count: u32,
    pub minimum: u32,
    pub maximum: u32,
}

/// The count after a left click, and the units left in the pool.
pub open spec fn after_left(count: u32, maximum: u32, limited: bool, available: u32) -> (u32, u32) {
    if count >= maximum {
        (maximum, available)
    } else if limited {
        if available > 0 {
            ((count + 1) as u32, (available - 1) as u32)
        } else {
            (count, available)
        }
    } else {
        ((count + 1) as u32, available)
    }
}

/// The count after a right click, and the units left in the pool.
/// A limited pool is drawn on here too; an empty pool stays empty.
pub open spec fn after_right(count: u32, minimum: u32, limited: bool, available: u32) -> (u32, u32) {
    if count <= minimum {
        (minimum, available)
    } else if limited {
        ((count - 1) as u32, if available > 0 { (available - 1) as u32 } else { 0 })
    } else {
        ((count - 1) as u32, available)
    }
}

/// The count and the pool after one click of either button.
pub open spec fn after_click(
    count: u32,
    minimum: u32,
    maximum: u32,
    limited: bool,
    available: u32,
    click: Click,
) -> (u32, u32) {
    match click {
        Click::Left => after_left(count, maximum, limited, available),
        Click::Right => after_right(count, minimum, limited, available),
    }
}

/// The count and the pool after a whole sequence of clicks, taken in order.
pub open spec fn after_clicks(
    count: u32,
    minimum: u32,
    maximum: u32,
    limited: bool,
    available: u32,
    clicks: Seq<Click>,
) -> (u32, u32)
    decreases clicks.len(),
{
    if clicks.len() == 0 {
        (count, available)
    } else {
        let (c, a) = after_click(count, minimum, maximum, limited, available, clicks[0]);
        after_clicks(c, minimum, maximum, limited, a, clicks.drop_first())
    }
}

impl BarController {
    /// The counter stays within its bounds.
    pub open spec fn wf(&self) -> bool {
        self.minimum <= self.count <= self.maximum
    }

    /// A controller bound to no bar, counting over all of `u32`.
    pub fn new() -> (r: BarController)
        ensures
            r.bar_index == -1,
            r.count == 0,
            r.minimum == 0,
            r.maximum == u32::MAX,
            r.wf(),
    {
        BarController { bar_index: -1, count: 0, minimum: 0, maximum: u32::MAX }
    }

    /// A controller over `[minimum, maximum]`; a starting count out of range
    /// is clamped to the nearest bound.
    pub fn with_bounds(bar_index: i32, count: u32, minimum: u32, maximum: u32) -> (r: BarController)
        requires
            minimum <= maximum,
        ensures
            r.bar_index == bar_index,
            r.minimum == minimum,
            r.maximum == maximum,
            r.count == (if count < minimum {
                minimum
            } else if count > maximum {
                maximum
            } else {
                count
            }),
            r.wf(),
    {
        let clamped: u32 = if count < minimum {
            minimum
        } else if count > maximum {
            maximum
        } else {
            count
        };
        BarController { bar_index, count: clamped, minimum, maximum }
    }

    /// Handles one button press; a limited game's pool is drawn on as the
    /// click succeeds.
    pub fn click(&mut self, click: Click, game: &mut MiniGame)
        ensures
            (final(self).count, final(game).available) == after_click(
                old(self).count,
                old(self).minimum,
                old(self).maximum,
                old(game).limited,
                old(game).available,
                click,
            ),
            final(self).bar_index == old(self).bar_index,
            final(self).minimum == old(self).minimum,
            final(self).maximum == old(self).maximum,
            final(game).limited == old(game).limited,
            old(self).wf() ==> final(self).wf(),
    {
        match click {
            Click::Left => {
                if self.count >= self.maximum {
                    self.count = self.maximum;
                    return;
                }
                if game.limited {
                    if game.available > 0 {
                        game.available = game.available - 1;
                        self.count = self.count + 1;
                    }
                } else {
                    self.count = self.count + 1;
                }
            },
            Click::Right => {
                if self.count <= self.minimum {
                    self.count = self.minimum;
                    return;
                }
                if game.limited {
                    if game.available > 0 {
                        game.available = game.available - 1;
                    }
                    self.count = self.count - 1;
                } else {
                    self.count = self.count - 1;
                }
            },
        }
    }

    /// The bar to update this frame and the height to give it: the count
    /// itself. `None` where no bar was assigned.
    pub fn frame_target(&self) -> (r: Option<(usize, u32)>)
        ensures
            self.bar_index < 0 ==> r is None,
            self.bar_index >= 0 ==> r == Some((self.bar_index as usize, self.count)),
    {
        if self.bar_index < 0 {
            None
        } else {
            Some((self.bar_index as usize, self.count))
        }
    }
}

/// A well-formed controller stays within its bounds after any sequence of
/// clicks, whatever the pool holds.
pub proof fn lemma_clicks_stay_in_bounds(
    count: u32,
    minimum: u32,
    maximum: u32,
    limited: bool,
    available: u32,
    clicks: Seq<Click>,
)
    requires
        minimum <= count <= maximum,
    ensures
        minimum <= after_clicks(count, minimum, maximum, limited, available, clicks).0 <= maximum,
    decreases clicks.len(),
{
    if clicks.len() > 0 {
        let (c, a) = after_click(count, minimum, maximum, limited, available, clicks[0]);
        lemma_clicks_stay_in_bounds(c, minimum, maximum, limited, a, clicks.drop_first());
    }
}

/// With a limited, empty pool a left click changes neither the count nor the pool.
pub proof fn lemma_empty_pool_blocks_left(count: u32, maximum: u32)
    ensures
        after_left(count, maximum, true, 0) == (if count >= maximum {
            (maximum, 0u32)
        } else {
            (count, 0u32)
        }),
        count <= maximum ==> after_left(count, maximum, true, 0) == (count, 0u32),
{
}

/// With a limited pool, a left click below the maximum and with units left
/// moves exactly one unit from the pool to the count.
pub proof fn lemma_left_moves_one_unit(count: u32, maximum: u32, available: u32)
    requires
        count < maximum,
        available > 0,
    ensures
        after_left(count, maximum, true, available) == ((count + 1) as u32, (available - 1) as u32),
{
}

/// With a limited pool, `k` left clicks from a count below the maximum move
/// exactly `k` units from the pool to the count, as long as neither the pool
/// runs dry nor the maximum is reached.
pub proof fn lemma_left_clicks_move_units(
    count: u32,
    minimum: u32,
    maximum: u32,
    available: u32,
    k: nat,
)
    requires
        count + k <= maximum,
        k <= available,
    ensures
        after_clicks(count, minimum, maximum, true, available, Seq::new(k, |i: int| Click::Left))
            == ((count + k) as u32, (available - k) as u32),
    decreases k,
{
    let clicks = Seq::new(k, |i: int| Click::Left);
    if k > 0 {
        let rest = Seq::new((k - 1) as nat, |i: int| Click::Left);
        assert(clicks.drop_first() =~= rest);
        lemma_left_clicks_move_units(
            (count + 1) as u32,
            minimum,
            maximum,
            (available - 1) as u32,
            (k - 1) as nat,
        );
    }
}

} // verus!
