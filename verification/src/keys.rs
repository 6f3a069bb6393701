//! The keys that the viewer reacts to, the order in which they are asked
//! for, and the direction in which each of them moves the view.

use vstd::prelude::*;

verus! {

/// A key that the viewer reacts to.
#[derive(Clone, Copy, Debug, PartialEq, Eq, Structural)]
pub enum Key {
    Left,
    Right,
    Up,
    Down,
    NumPadPlus,
    Minus,
    NumPadMinus,
    Q,
    Escape,
    C,
}

/// The number of keys that the viewer reacts to.
pub const ACTIVE_KEY_COUNT: usize = 10;

/// The keys in the order in which they are asked for: the four directions,
/// the zoom keys, the two keys that quit, and the key that changes the
/// colour scale. Of several keys held at once, the first in this order wins.
pub open spec fn active_keys() -> Seq<Key> {
    seq![
        Key::Left,
        Key::Right,
        Key::Up,
        Key::Down,
        Key::NumPadPlus,
        Key::Minus,
        Key::NumPadMinus,
        Key::Q,
        Key::Escape,
        Key::C,
    ]
}

/// The first key of `order` that occurs among the keys held, if there is
/// one.
pub open spec fn first_held(order: Seq<Key>, held: Seq<Key>) -> Option<Key>
    decreases order.len(),
{
    if order.len() == 0 {
        None
    } else if held.contains(order[0]) {
        Some(order[0])
    } else {
        first_held(order.drop_first(), held)
    }
}

/// The step that a key moves the view by, in units of the pan distance:
/// the first part along the real axis, the second along the imaginary one.
/// Only the four direction keys move the view.
pub open spec fn step_of(direction: Key) -> (int, int) {
    match direction {
        Key::Left => (-1, 0),
        Key::Right => (1, 0),
        Key::Up => (0, 1),
        Key::Down => (0, -1),
        _ => (0, 0),
    }
}

/// The direction key that undoes the given one; any other key is its own.
pub open spec fn opposite(direction: Key) -> Key {
    match direction {
        Key::Left => Key::Right,
        Key::Right => Key::Left,
        Key::Up => Key::Down,
        Key::Down => Key::Up,
        other => other,
    }
}

/// The keys in the order in which they are asked for.
pub fn active_key_order() -> (order: [Key; 10])
    ensures
        order@ == active_keys(),
{
    let order = [
        Key::Left,
        Key::Right,
        Key::Up,
        Key::Down,
        Key::NumPadPlus,
        Key::Minus,
        Key::NumPadMinus,
        Key::Q,
        Key::Escape,
        Key::C,
    ];
    assert(order@ =~= active_keys());
    order
}

/// Whether the key is among the keys held.
pub fn is_key_down(held: &Vec<Key>, key: Key) -> (down: bool)
    ensures
        down == held@.contains(key),
{
    let mut index: usize = 0;
    while index < held.len()
        invariant
            index <= held.len(),
            forall|j: int| 0 <= j < index ==> held@[j] != key,
        decreases held.len() - index,
    {
        if held[index] == key {
            return true;
        }
        index += 1;
    }
    false
}

/// The key that the viewer reacts to in this tick: of the keys held, the
/// one that comes first in the order of `active_keys`, and `None` where no
/// key is held.
pub fn key_press(held: &Vec<Key>) -> (key: Option<Key>)
    ensures
        key == first_held(active_keys(), held@),
        key is None <==> held@.len() == 0,
{
    proof {
        lemma_some_key_wins(held@);
    }
    let order = active_key_order();
    let mut rank: usize = 0;
    assert(order@.skip(0) =~= order@);
    while rank < ACTIVE_KEY_COUNT
        invariant
            rank <= ACTIVE_KEY_COUNT,
            order@ == active_keys(),
            order@.len() == ACTIVE_KEY_COUNT,
            first_held(active_keys(), held@) == first_held(order@.skip(rank as int), held@),
        decreases ACTIVE_KEY_COUNT - rank,
    {
        let candidate = order[rank];
        assert(order@.skip(rank as int)[0] == candidate);
        assert(order@.skip(rank as int).drop_first() =~= order@.skip(rank as int + 1));
        if is_key_down(held, candidate) {
            return Some(candidate);
        }
        rank += 1;
    }
    None
}

/// The step that a key moves the view by, in units of the pan distance:
/// left and right along the real axis, up and down along the imaginary one,
/// and no step at all for a key that is no direction.
pub fn shift_step(direction: Key) -> (step: (i8, i8))
    ensures
        step.0 == step_of(direction).0,
        step.1 == step_of(direction).1,
{
    match direction {
        Key::Left => (-1, 0),
        Key::Right => (1, 0),
        Key::Up => (0, 1),
        Key::Down => (0, -1),
        _ => (0, 0),
    }
}

/// The steps of a direction and of its opposite add up to no step, and the
/// opposite of the opposite is the direction itself.
pub proof fn lemma_opposite_steps_cancel(direction: Key)
    ensures
        step_of(direction).0 + step_of(opposite(direction)).0 == 0,
        step_of(direction).1 + step_of(opposite(direction)).1 == 0,
        opposite(opposite(direction)) == direction,
{
}

/// The key that wins is held, and no key that comes before it in the order
/// is held; no key wins exactly when none of the keys of the order is held.
pub proof fn lemma_first_held(order: Seq<Key>, held: Seq<Key>)
    ensures
        match first_held(order, held) {
            Some(key) => exists|rank: int|
                0 <= rank < order.len() && order[rank] == key && held.contains(key)
                    && forall|before: int| 0 <= before < rank ==> !held.contains(#[trigger] order[before]),
            None => forall|rank: int| 0 <= rank < order.len() ==> !held.contains(#[trigger] order[rank]),
        },
    decreases order.len(),
{
    if order.len() == 0 {
    } else if held.contains(order[0]) {
    } else {
        let rest = order.drop_first();
        lemma_first_held(rest, held);
        match first_held(rest, held) {
            Some(key) => {
                let rank = choose|rank: int|
                    0 <= rank < rest.len() && rest[rank] == key && held.contains(key)
                        && forall|before: int| 0 <= before < rank ==> !held.contains(#[trigger] rest[before]);
                assert(order[rank + 1] == key);
                assert forall|before: int| 0 <= before < rank + 1 implies !held.contains(
                    #[trigger] order[before],
                ) by {
                    if before > 0 {
                        assert(order[before] == rest[before - 1]);
                    }
                }
            },
            None => {
                assert forall|rank: int| 0 <= rank < order.len() implies !held.contains(
                    #[trigger] order[rank],
                ) by {
                    if rank > 0 {
                        assert(order[rank] == rest[rank - 1]);
                    }
                }
            },
        }
    }
}

/// Every key has its place in the order, so some key wins whenever a key is
/// held.
pub proof fn lemma_some_key_wins(held: Seq<Key>)
    ensures
        first_held(active_keys(), held) is None <==> held.len() == 0,
{
    let order = active_keys();
    lemma_first_held(order, held);
    if held.len() > 0 {
        let key = held[0];
        assert(held.contains(key));
        let rank: int = match key {
            Key::Left => 0,
            Key::Right => 1,
            Key::Up => 2,
            Key::Down => 3,
            Key::NumPadPlus => 4,
            Key::Minus => 5,
            Key::NumPadMinus => 6,
            Key::Q => 7,
            Key::Escape => 8,
            Key::C => 9,
        };
        assert(order[rank] == key);
    } else {
        assert forall|rank: int| 0 <= rank < order.len() implies !held.contains(
            #[trigger] order[rank],
        ) by {}
        if first_held(order, held) is Some {
            assert(false);
        }
    }
}

} // verus!
