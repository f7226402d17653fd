//! The moves that held keys make the free-fly camera perform on a tick.

use crate::geometry::Axis;
use crate::keys::{Key, KeysPressed};
use vstd::prelude::*;

verus! {

/// One step of the camera, relative to its own axes. How far a step goes is the
/// caller's matter: the tick's length times the camera's linear or angular speed.
#[derive(Clone, Copy, Debug, PartialEq, Eq, Structural)]
pub enum CameraMove {
    /// Shift the position one step along the camera's own `axis`, as the camera
    /// is oriented when the move is performed.
    Translate { axis: Axis, positive: bool },
    /// Turn the camera one step about its own `axis`: the orientation is
    /// multiplied on the right by that rotation.
    Rotate { axis: Axis, positive: bool },
}

/// The move that each key stands for: W and S go forward and back along the
/// camera's z axis, forward being negative z; A and D strafe along x; Q and E
/// sink and rise along y; I and K pitch about x, J and L yaw about y, U and O
/// roll about z.
pub open spec fn key_move(key: Key) -> CameraMove {
    match key {
        Key::W => CameraMove::Translate { axis: Axis::Z, positive: false },
        Key::S => CameraMove::Translate { axis: Axis::Z, positive: true },
        Key::A => CameraMove::Translate { axis: Axis::X, positive: false },
        Key::D => CameraMove::Translate { axis: Axis::X, positive: true },
        Key::Q => CameraMove::Translate { axis: Axis::Y, positive: false },
        Key::E => CameraMove::Translate { axis: Axis::Y, positive: true },
        Key::I => CameraMove::Rotate { axis: Axis::X, positive: true },
        Key::K => CameraMove::Rotate { axis: Axis::X, positive: false },
        Key::J => CameraMove::Rotate { axis: Axis::Y, positive: true },
        Key::L => CameraMove::Rotate { axis: Axis::Y, positive: false },
        Key::U => CameraMove::Rotate { axis: Axis::Z, positive: true },
        Key::O => CameraMove::Rotate { axis: Axis::Z, positive: false },
    }
}

/// The order in which a tick serves the keys.
pub open spec fn tick_order() -> Seq<Key> {
    seq![
        Key::W,
        Key::S,
        Key::A,
        Key::D,
        Key::Q,
        Key::E,
        Key::I,
        Key::K,
        Key::J,
        Key::L,
        Key::U,
        Key::O,
    ]
}

/// The moves of one tick: the move of every held key, in tick order.
pub open spec fn tick_moves(held: Set<Key>) -> Seq<CameraMove> {
    tick_order().filter(|key: Key| held.contains(key)).map_values(|key: Key| key_move(key))
}

/// Gives the move that a key stands for.
pub fn move_of(key: Key) -> (step: CameraMove)
    ensures
        step == key_move(key),
{
    match key {
        Key::W => CameraMove::Translate { axis: Axis::Z, positive: false },
        Key::S => CameraMove::Translate { axis: Axis::Z, positive: true },
        Key::A => CameraMove::Translate { axis: Axis::X, positive: false },
        Key::D => CameraMove::Translate { axis: Axis::X, positive: true },
        Key::Q => CameraMove::Translate { axis: Axis::Y, positive: false },
        Key::E => CameraMove::Translate { axis: Axis::Y, positive: true },
        Key::I => CameraMove::Rotate { axis: Axis::X, positive: true },
        Key::K => CameraMove::Rotate { axis: Axis::X, positive: false },
        Key::J => CameraMove::Rotate { axis: Axis::Y, positive: true },
        Key::L => CameraMove::Rotate { axis: Axis::Y, positive: false },
        Key::U => CameraMove::Rotate { axis: Axis::Z, positive: true },
        Key::O => CameraMove::Rotate { axis: Axis::Z, positive: false },
    }
}

/// Lists the camera moves of one tick for the keys that are held.
pub fn camera_moves(keys: &KeysPressed) -> (moves: Vec<CameraMove>)
    ensures
        moves@ == tick_moves(keys@),
{
    let order: [Key; 12] = [
        Key::W,
        Key::S,
        Key::A,
        Key::D,
        Key::Q,
        Key::E,
        Key::I,
        Key::K,
        Key::J,
        Key::L,
        Key::U,
        Key::O,
    ];
    assert(order@ =~= tick_order());
    let ghost is_held = |key: Key| keys@.contains(key);
    let ghost to_move = |key: Key| key_move(key);
    let mut moves: Vec<CameraMove> = Vec::new();
    let mut served: usize = 0;
    assert(order@.take(0).filter(is_held) =~= Seq::<Key>::empty()) by {
        reveal(Seq::filter);
    }
    while served < 12
        invariant
            served <= 12,
            order@ == tick_order(),
            is_held == |key: Key| keys@.contains(key),
            to_move == |key: Key| key_move(key),
            moves@ == order@.take(served as int).filter(is_held).map_values(to_move),
        decreases 12 - served,
    {
        let key = order[served];
        proof {
            let done = order@.take(served as int);
            assert(order@.take(served + 1) =~= done.push(key));
            done.lemma_filter_push(key, is_held);
            done.filter(is_held).lemma_push_map_commute(to_move, key);
        }
        if keys.is_held(key) {
            moves.push(move_of(key));
        }
        served = served + 1;
    }
    assert(order@.take(12) =~= order@);
    moves
}

/// The moves of the first `n` keys of the tick order, built key by key.
spec fn served(held: Set<Key>, n: nat) -> Seq<CameraMove>
    decreases n,
{
    if n == 0 {
        Seq::empty()
    } else {
        let key = tick_order()[n - 1];
        if held.contains(key) {
            served(held, (n - 1) as nat).push(key_move(key))
        } else {
            served(held, (n - 1) as nat)
        }
    }
}

proof fn lemma_served_is_prefix(held: Set<Key>, n: nat)
    requires
        n <= 12,
    ensures
        served(held, n) == tick_order().take(n as int).filter(
            |key: Key| held.contains(key),
        ).map_values(|key: Key| key_move(key)),
    decreases n,
{
    let is_held = |key: Key| held.contains(key);
    let to_move = |key: Key| key_move(key);
    if n == 0 {
        assert(tick_order().take(0).filter(is_held) =~= Seq::<Key>::empty()) by {
            reveal(Seq::filter);
        }
        assert(served(held, 0) =~= Seq::<Key>::empty().map_values(to_move));
    } else {
        let key = tick_order()[n - 1];
        let done = tick_order().take(n - 1);
        lemma_served_is_prefix(held, (n - 1) as nat);
        assert(tick_order().take(n as int) =~= done.push(key));
        done.lemma_filter_push(key, is_held);
        done.filter(is_held).lemma_push_map_commute(to_move, key);
    }
}

proof fn lemma_served_all(held: Set<Key>)
    ensures
        served(held, 12) == tick_moves(held),
{
    lemma_served_is_prefix(held, 12);
    assert(tick_order().take(12) =~= tick_order());
}

proof fn lemma_served_members(held: Set<Key>, n: nat)
    requires
        n <= 12,
    ensures
        served(held, n).len() <= n,
        forall|i: int|
            0 <= i < served(held, n).len() ==> exists|k: int|
                0 <= k < n && held.contains(tick_order()[k]) && #[trigger] served(held, n)[i]
                    == key_move(tick_order()[k]),
        forall|k: int|
            0 <= k < n && held.contains(tick_order()[k]) ==> served(held, n).contains(
                key_move(#[trigger] tick_order()[k]),
            ),
        served(held, n).no_duplicates(),
        n <= 6 ==> forall|i: int|
            0 <= i < served(held, n).len() ==> #[trigger] served(held, n)[i] is Translate,
        forall|i: int, j: int|
            0 <= i < j < served(held, n).len() && #[trigger] served(held, n)[j] is Translate
                ==> #[trigger] served(held, n)[i] is Translate,
    decreases n,
{
    if n > 0 {
        let before = served(held, (n - 1) as nat);
        let now = served(held, n);
        let key = tick_order()[n - 1];
        lemma_served_members(held, (n - 1) as nat);
        if held.contains(key) {
            assert(now == before.push(key_move(key)));
            assert forall|i: int| 0 <= i < now.len() implies exists|k: int|
                0 <= k < n && held.contains(tick_order()[k]) && #[trigger] now[i] == key_move(
                    tick_order()[k],
                ) by {
                if i < before.len() {
                    let k = choose|k: int|
                        0 <= k < n - 1 && held.contains(tick_order()[k]) && before[i] == key_move(
                            tick_order()[k],
                        );
                    assert(now[i] == key_move(tick_order()[k]));
                } else {
                    assert(now[i] == key_move(tick_order()[n - 1]));
                }
            }
            assert forall|k: int|
                0 <= k < n && held.contains(tick_order()[k]) implies now.contains(
                key_move(#[trigger] tick_order()[k]),
            ) by {
                if k < n - 1 {
                    let i = choose|i: int|
                        0 <= i < before.len() && before[i] == key_move(tick_order()[k]);
                    assert(now[i] == key_move(tick_order()[k]));
                } else {
                    assert(now[now.len() - 1] == key_move(tick_order()[k]));
                }
            }
            assert forall|i: int, j: int| 0 <= i < j < now.len() implies now[i] != now[j] by {
                let a = choose|k: int|
                    0 <= k < n - 1 && held.contains(tick_order()[k]) && before[i] == key_move(
                        tick_order()[k],
                    );
                if j == now.len() - 1 {
                    assert(now[j] == key_move(key));
                    assert(tick_order()[a] != key);
                }
            }
        }
    }
}

/// With no key held the camera stays where it is.
pub proof fn lemma_idle_camera()
    ensures
        tick_moves(Set::<Key>::empty()) == Seq::<CameraMove>::empty(),
{
    let held = Set::<Key>::empty();
    lemma_served_all(held);
    lemma_served_members(held, 12);
    if served(held, 12).len() > 0 {
        assert(exists|k: int| 0 <= k < 12 && held.contains(tick_order()[k]) && served(held, 12)[0]
            == key_move(tick_order()[k]));
    }
    assert(served(held, 12) =~= Seq::<CameraMove>::empty());
}

/// A tick serves every held key once and no other key: the moves are those of
/// the held keys, none of them twice.
pub proof fn lemma_held_keys_served_once(held: Set<Key>)
    ensures
        tick_moves(held).no_duplicates(),
        tick_moves(held).len() <= 12,
        forall|step: CameraMove| #[trigger]
            tick_moves(held).contains(step) <==> exists|key: Key|
                held.contains(key) && step == key_move(key),
{
    lemma_served_all(held);
    lemma_served_members(held, 12);
    let moves = tick_moves(held);
    assert forall|step: CameraMove| #[trigger] moves.contains(step) implies exists|key: Key|
        held.contains(key) && step == key_move(key) by {
        let i = choose|i: int| 0 <= i < moves.len() && moves[i] == step;
        let k = choose|k: int|
            0 <= k < 12 && held.contains(tick_order()[k]) && moves[i] == key_move(tick_order()[k]);
        assert(held.contains(tick_order()[k]) && step == key_move(tick_order()[k]));
    }
    assert forall|step: CameraMove|
        (exists|key: Key| held.contains(key) && step == key_move(key)) implies #[trigger]
        moves.contains(step) by {
        let key = choose|key: Key| held.contains(key) && step == key_move(key);
        let k = position(key);
        assert(tick_order()[k] == key);
    }
}

/// The place of a key in the tick order.
pub open spec fn position(key: Key) -> int {
    match key {
        Key::W => 0,
        Key::S => 1,
        Key::A => 2,
        Key::D => 3,
        Key::Q => 4,
        Key::E => 5,
        Key::I => 6,
        Key::K => 7,
        Key::J => 8,
        Key::L => 9,
        Key::U => 10,
        Key::O => 11,
    }
}

/// While one key alone is held, every tick makes that key's move and no other.
pub proof fn lemma_single_key(key: Key)
    ensures
        tick_moves(set![key]) == seq![key_move(key)],
{
    let held = set![key];
    lemma_held_keys_served_once(held);
    let moves = tick_moves(held);
    assert(moves.contains(key_move(key)));
    assert forall|i: int| 0 <= i < moves.len() implies moves[i] == key_move(key) by {
        assert(moves.contains(moves[i]));
    }
    if moves.len() > 1 {
        assert(moves[0] == moves[1]);
    }
    assert(moves =~= seq![key_move(key)]);
}

/// Within a tick every shift of the camera comes before every turn, so all
/// shifts of a tick go along the axes that the camera had when the tick began.
pub proof fn lemma_translations_first(held: Set<Key>, i: int, j: int)
    requires
        0 <= i < j < tick_moves(held).len(),
        tick_moves(held)[j] is Translate,
    ensures
        tick_moves(held)[i] is Translate,
{
    lemma_served_all(held);
    lemma_served_members(held, 12);
}

} // verus!
