use wumpus::game::{Game, GameError};
use wumpus::session::{Model, Msg};

const WUMPUS_DEATH: &str = "You stumble into the lair of the wumpus. It eats you whole.";

#[test]
fn a_session_begins_with_no_game() {
    let m = Model::default();
    assert!(matches!(m, Model::NewGame));
}

#[test]
fn start_begins_a_fresh_playing_session() {
    let mut m = Model::default();
    m.start(5);
    match m {
        Model::Playing(g) => {
            assert_eq!(g.current_room, 1);
            assert_eq!(g.arrows, 5);
        }
        _ => panic!("starting must hand out a live game"),
    }
}

#[test]
fn moving_without_a_live_game_is_refused() {
    let mut m = Model::NewGame;
    assert_eq!(m.switch_room(2), Err(GameError::IllegalMove));
    assert!(matches!(m, Model::NewGame));
}

#[test]
fn a_legal_move_keeps_the_session_alive() {
    let mut m = Model::Playing(Game {
        arrows: 5,
        current_room: 1,
        messages: Vec::new(),
        wumpus: 9,
        bats: [13, 16],
        pits: [18, 19],
    });
    assert_eq!(m.switch_room(5), Ok(()));
    match m {
        Model::Playing(g) => assert_eq!(g.current_room, 5),
        _ => panic!("a harmless move must keep the game live"),
    }
}

#[test]
fn walking_into_the_wumpus_ends_the_session_until_restarted() {
    let mut m = Model::Playing(Game {
        arrows: 5,
        current_room: 1,
        messages: Vec::new(),
        wumpus: 8,
        bats: [13, 16],
        pits: [18, 19],
    });
    assert_eq!(m.switch_room(8), Ok(()));
    match &m {
        Model::GameOver(msg) => assert_eq!(msg, WUMPUS_DEATH),
        _ => panic!("walking into the wumpus must end the session"),
    }
    // No further move is accepted, legal target or not.
    assert_eq!(m.switch_room(1), Err(GameError::IllegalMove));
    assert_eq!(m.switch_room(7), Err(GameError::IllegalMove));
    assert!(matches!(m, Model::GameOver(_)));
    // A new session plays again.
    m.start(9);
    assert!(matches!(m, Model::Playing(_)));
}

#[test]
fn update_dispatches_both_messages() {
    let mut m = Model::default();
    assert_eq!(m.update(Msg::StartGame, 21), Ok(()));
    let room = match &m {
        Model::Playing(g) => g.current_room,
        _ => panic!("StartGame must hand out a live game"),
    };
    assert_eq!(room, 1);
    assert_eq!(m.update(Msg::SwitchRoom(42), 0), Err(GameError::UnknownRoom));
    assert_eq!(m.update(Msg::SwitchRoom(2), 0), Ok(()));
}

#[test]
fn an_illegal_move_leaves_the_session_unchanged() {
    let mut m = Model::Playing(Game {
        arrows: 5,
        current_room: 1,
        messages: Vec::new(),
        wumpus: 9,
        bats: [13, 16],
        pits: [18, 19],
    });
    assert_eq!(m.switch_room(9), Err(GameError::IllegalMove));
    match m {
        Model::Playing(g) => {
            assert_eq!(g.current_room, 1);
            assert!(g.messages.is_empty());
        }
        _ => panic!("a refused move must not end the session"),
    }
}
