//! The cave graph: twenty rooms joined as a dodecahedron, three exits each.

use vstd::prelude::*;

verus! {

/// A chamber of the cave is numbered 1 through 20; no other id names a room.
pub open spec fn valid_room(r: int) -> bool {
    1 <= r <= 20
}

/// The fixed, hand-authored adjacency table: the three exits of each room, in
/// display order. Rooms outside the cave have no exits.
pub open spec fn cave_exits(room: int) -> Seq<int> {
    if room == 1 {
        seq![2, 5, 8]
    } else if room == 2 {
        seq![1, 3, 10]
    } else if room == 3 {
        seq![2, 4, 12]
    } else if room == 4 {
        seq![3, 5, 14]
    } else if room == 5 {
        seq![1, 4, 6]
    } else if room == 6 {
        seq![5, 7, 15]
    } else if room == 7 {
        seq![6, 8, 17]
    } else if room == 8 {
        seq![1, 7, 11]
    } else if room == 9 {
        seq![10, 12, 19]
    } else if room == 10 {
        seq![2, 9, 11]
    } else if room == 11 {
        seq![8, 10, 20]
    } else if room == 12 {
        seq![3, 9, 13]
    } else if room == 13 {
        seq![12, 14, 18]
    } else if room == 14 {
        seq![4, 13, 15]
    } else if room == 15 {
        seq![6, 14, 16]
    } else if room == 16 {
        seq![15, 17, 18]
    } else if room == 17 {
        seq![7, 16, 20]
    } else if room == 18 {
        seq![13, 16, 19]
    } else if room == 19 {
        seq![9, 18, 20]
    } else if room == 20 {
        seq![11, 17, 19]
    } else {
        seq![]
    }
}

/// `target` lies directly behind one of the three exits of `room`.
pub open spec fn is_exit(room: int, target: int) -> bool {
    cave_exits(room).contains(target)
}

/// The three exits of `room`, or `None` when no such room exists.
pub fn room_exits(room: u8) -> (r: Option<[u8; 3]>)
    ensures
        r is Some <==> valid_room(room as int),
        r matches Some(ex) ==> ex@.map_values(|x: u8| x as int) =~= cave_exits(room as int),
{
    match room {
        1 => Some([2, 5, 8]),
        2 => Some([1, 3, 10]),
        3 => Some([2, 4, 12]),
        4 => Some([3, 5, 14]),
        5 => Some([1, 4, 6]),
        6 => Some([5, 7, 15]),
        7 => Some([6, 8, 17]),
        8 => Some([1, 7, 11]),
        9 => Some([10, 12, 19]),
        10 => Some([2, 9, 11]),
        11 => Some([8, 10, 20]),
        12 => Some([3, 9, 13]),
        13 => Some([12, 14, 18]),
        14 => Some([4, 13, 15]),
        15 => Some([6, 14, 16]),
        16 => Some([15, 17, 18]),
        17 => Some([7, 16, 20]),
        18 => Some([13, 16, 19]),
        19 => Some([9, 18, 20]),
        20 => Some([11, 17, 19]),
        _ => None,
    }
}

/// Every room of the cave has exactly three exits, pairwise distinct, and each
/// exit is itself a room of the cave.
pub proof fn lemma_exits_form(room: int)
    requires
        valid_room(room),
    ensures
        cave_exits(room).len() == 3,
        cave_exits(room)[0] != cave_exits(room)[1],
        cave_exits(room)[0] != cave_exits(room)[2],
        cave_exits(room)[1] != cave_exits(room)[2],
        forall|i: int| 0 <= i < 3 ==> valid_room(#[trigger] cave_exits(room)[i]),
{
}

/// The cave is undirected in effect: whatever room an exit leads to leads
/// back through one of its own exits.
pub proof fn lemma_exits_symmetric(room: int, target: int)
    requires
        valid_room(room),
        is_exit(room, target),
    ensures
        is_exit(target, room),
{
    let exs = cave_exits(room);
    assert(exs[0] == target || exs[1] == target || exs[2] == target);
    assert(cave_exits(target).contains(room)) by {
        if cave_exits(target)[0] == room {
            assert(cave_exits(target).contains(room));
        } else if cave_exits(target)[1] == room {
            assert(cave_exits(target).contains(room));
        } else {
            assert(cave_exits(target)[2] == room);
        }
    }
}

/// Reading the exits of a room is idempotent: any two results that
/// `room_exits` may return for the same room are the same triple, so repeated
/// reads without an intervening change see identical values.
pub proof fn lemma_room_exits_unique(room: u8, a: [u8; 3], b: [u8; 3])
    requires
        a@.map_values(|x: u8| x as int) =~= cave_exits(room as int),
        b@.map_values(|x: u8| x as int) =~= cave_exits(room as int),
    ensures
        a == b,
{
    assert forall|i: int| 0 <= i < 3 implies a@[i] == b@[i] by {
        assert(a@.map_values(|x: u8| x as int)[i] == a@[i] as int);
        assert(b@.map_values(|x: u8| x as int)[i] == b@[i] as int);
    }
    assert(a@ =~= b@);
}

} // verus!
