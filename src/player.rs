use vstd::prelude::*;

verus! {

/// Whether the player turns around this frame. `facing` is the sign of the
/// vertical scale of the player's transform, which flips with its direction.
pub fn should_flip(left: bool, right: bool, facing: i32) -> (r: bool)
    ensures
        r == ((left && facing > 0 && !right) || (right && facing < 0 && !left)),
{
    (left && facing > 0 && !right) || (right && facing < 0 && !left)
}

/// The position of the first locked door, or the number of doors if none is.
pub open spec fn first_locked(locked: Seq<bool>) -> int
    decreases locked.len(),
{
    if locked.len() == 0 {
        0
    } else if locked[0] {
        0
    } else {
        1 + first_locked(locked.drop_first())
    }
}

/// Of the doors the player overlaps, in order, the ones it goes through on
/// interacting: all of them with a key; without one, those before the first
/// locked door, where it stops.
pub fn doors_to_enter(locked: &Vec<bool>, has_key: bool) -> (r: Vec<usize>)
    ensures
        has_key ==> r@ == Seq::new(locked@.len(), |k: int| k as usize),
        !has_key ==> r@ == Seq::new(first_locked(locked@) as nat, |k: int| k as usize),
{
    let mut entered: Vec<usize> = Vec::new();
    let mut i: usize = 0;
    while i < locked.len()
        invariant
            i <= locked@.len(),
            entered@ == Seq::new(i as nat, |k: int| k as usize),
            !has_key ==> forall|k: int| 0 <= k < i ==> !#[trigger] locked@[k],
        decreases locked@.len() - i,
    {
        if locked[i] && !has_key {
            proof {
                lemma_first_locked_at(locked@, i as int);
            }
            return entered;
        }
        entered.push(i);
        assert(entered@ =~= Seq::new((i + 1) as nat, |k: int| k as usize));
        i = i + 1;
    }
    proof {
        if !has_key {
            lemma_first_locked_at(locked@, locked@.len() as int);
        }
    }
    entered
}

proof fn lemma_first_locked_at(locked: Seq<bool>, i: int)
    requires
        0 <= i <= locked.len(),
        forall|k: int| 0 <= k < i ==> !#[trigger] locked[k],
        i < locked.len() ==> locked[i],
    ensures
        first_locked(locked) == i,
    decreases i,
{
    if i > 0 {
        assert forall|k: int| 0 <= k < i - 1 implies !#[trigger] locked.drop_first()[k] by {
            assert(locked.drop_first()[k] == locked[k + 1]);
        }
        lemma_first_locked_at(locked.drop_first(), i - 1);
    }
}

} // verus!
