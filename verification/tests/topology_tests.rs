use wumpus::topology::room_exits;

const TABLE: [(u8, [u8; 3]); 20] = [
    (1, [2, 5, 8]),
    (2, [1, 3, 10]),
    (3, [2, 4, 12]),
    (4, [3, 5, 14]),
    (5, [1, 4, 6]),
    (6, [5, 7, 15]),
    (7, [6, 8, 17]),
    (8, [1, 7, 11]),
    (9, [10, 12, 19]),
    (10, [2, 9, 11]),
    (11, [8, 10, 20]),
    (12, [3, 9, 13]),
    (13, [12, 14, 18]),
    (14, [4, 13, 15]),
    (15, [6, 14, 16]),
    (16, [15, 17, 18]),
    (17, [7, 16, 20]),
    (18, [13, 16, 19]),
    (19, [9, 18, 20]),
    (20, [11, 17, 19]),
];

#[test]
fn exits_match_fixed_table() {
    for (room, expected) in TABLE {
        assert_eq!(room_exits(room), Some(expected), "room {}", room);
    }
}

#[test]
fn exits_are_three_distinct_valid_rooms() {
    for room in 1..=20u8 {
        let ex = room_exits(room).expect("every room of the cave has exits");
        assert_ne!(ex[0], ex[1]);
        assert_ne!(ex[0], ex[2]);
        assert_ne!(ex[1], ex[2]);
        for e in ex {
            assert!((1..=20).contains(&e));
        }
    }
}

#[test]
fn adjacency_is_symmetric() {
    for room in 1..=20u8 {
        for e in room_exits(room).unwrap() {
            let back = room_exits(e).unwrap();
            assert!(back.contains(&room), "room {} not an exit of {}", room, e);
        }
    }
}

#[test]
fn unknown_room_ids_have_no_exits() {
    assert_eq!(room_exits(0), None);
    assert_eq!(room_exits(21), None);
    assert_eq!(room_exits(255), None);
}

#[test]
fn exits_read_is_idempotent() {
    for room in 0..=30u8 {
        assert_eq!(room_exits(room), room_exits(room));
    }
}
