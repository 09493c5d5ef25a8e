//! The game state and its single transition: hazard placement, movement,
//! hazard-proximity warnings, and the termination check.
//!
//! Message policy: an accepted move first sets the player's room, then appends
//! the hazard warnings for the new room to the log. The terminal narrative is
//! carried in the move's outcome, not appended to the log.

use vstd::prelude::*;

use crate::rng::CaveRng;
use crate::topology::{cave_exits, is_exit, lemma_exits_form, room_exits, valid_room};

verus! {

/// A condition the caller can recover from: an id outside the cave, a move to
/// a room that is not an exit, or exclusions that cover the whole cave.
#[derive(Clone, Copy, Debug, PartialEq, Eq, Structural)]
pub enum GameError {
    UnknownRoom,
    IllegalMove,
    RoomSpaceExhausted,
}

/// What a move came to: the game goes on, or it ended with a narrative.
#[derive(Debug)]
pub enum MoveOutcome {
    Continue,
    GameOver(String),
}

pub open spec fn intro_message() -> Seq<char> {
    "You've entered a clammy, dark cave, armed with 5 arrows.  You are very cold."@
}

pub open spec fn wumpus_warning() -> Seq<char> {
    "You smell something horrific and rancid."@
}

pub open spec fn pit_warning() -> Seq<char> {
    "You feel a cold updraft from a nearby cavern."@
}

pub open spec fn bat_warning() -> Seq<char> {
    "You hear a faint but distinct flapping of wings."@
}

pub open spec fn wumpus_death() -> Seq<char> {
    "You stumble into the lair of the wumpus. It eats you whole."@
}

pub open spec fn pit_death() -> Seq<char> {
    "You step into darkness and fall down a bottomless pit."@
}

/// The narrative content of a message log.
pub open spec fn log_of(ms: Seq<String>) -> Seq<Seq<char>> {
    ms.map_values(|m: String| m@)
}

/// Whether `v` holds `x`.
fn vec_contains(v: &Vec<u8>, x: u8) -> (r: bool)
    ensures
        r == v@.contains(x),
{
    let mut i: usize = 0;
    while i < v.len()
        invariant
            0 <= i <= v@.len(),
            forall|j: int| 0 <= j < i ==> v@[j] != x,
        decreases v@.len() - i,
    {
        if v[i] == x {
            proof {
                assert(v@[i as int] == x);
            }
            return true;
        }
        i += 1;
    }
    false
}

/// At most six excluded rooms can never cover a cave of twenty.
proof fn lemma_exclusions_leave_a_room(avoid: Seq<u8>)
    requires
        avoid.len() <= 6,
    ensures
        !(forall|t: u8| 1 <= t <= 20 ==> #[trigger] avoid.contains(t)),
{
    if forall|t: u8| 1 <= t <= 20 ==> #[trigger] avoid.contains(t) {
        assert(avoid.contains(1u8));
        assert(avoid.contains(2u8));
        assert(avoid.contains(3u8));
        assert(avoid.contains(4u8));
        assert(avoid.contains(5u8));
        assert(avoid.contains(6u8));
        assert(avoid.contains(7u8));
        assert(false);
    }
}

/// Draws a room of the cave outside `avoid`, or reports that the exclusions
/// cover the whole cave. Every room left free by `avoid` can come back; which
/// one does depends on the draw alone.
pub fn place_hazard(rng: &mut CaveRng, avoid: &Vec<u8>) -> (r: Result<u8, GameError>)
    ensures
        r matches Ok(room) ==> valid_room(room as int) && !avoid@.contains(room),
        r is Err <==> (forall|t: u8| 1 <= t <= 20 ==> #[trigger] avoid@.contains(t)),
        r matches Err(e) ==> e == GameError::RoomSpaceExhausted,
        avoid@.len() <= 6 ==> r is Ok,
{
    let mut candidates: Vec<u8> = Vec::new();
    let mut t: u8 = 1;
    while t <= 20
        invariant
            1 <= t <= 21,
            candidates@.len() < t,
            forall|j: int|
                0 <= j < candidates@.len() ==> valid_room(#[trigger] candidates@[j] as int)
                    && !avoid@.contains(candidates@[j]),
            forall|x: u8| 1 <= x < t && !avoid@.contains(x) ==> candidates@.contains(x),
        decreases 21 - t,
    {
        if !vec_contains(avoid, t) {
            let ghost before = candidates@;
            candidates.push(t);
            proof {
                assert(candidates@.last() == t);
                assert forall|x: u8| 1 <= x < t + 1 && !avoid@.contains(x) implies candidates@.contains(
                    x,
                ) by {
                    if x < t {
                        let j = choose|j: int| 0 <= j < before.len() && before[j] == x;
                        assert(candidates@[j] == x);
                    } else {
                        assert(candidates@[candidates@.len() - 1] == x);
                    }
                }
            }
        }
        t += 1;
    }
    if candidates.len() == 0 {
        proof {
            assert forall|x: u8| 1 <= x <= 20 implies avoid@.contains(x) by {
                if !avoid@.contains(x) {
                    assert(candidates@.contains(x));
                }
            }
            if avoid@.len() <= 6 {
                lemma_exclusions_leave_a_room(avoid@);
            }
        }
        Err(GameError::RoomSpaceExhausted)
    } else {
        let idx = rng.next_below(candidates.len() as u8);
        let room = candidates[idx as usize];
        proof {
            assert(!avoid@.contains(room));
        }
        Ok(room)
    }
}

/// One playthrough's state: where the player stands, what they carry, where
/// the hazards sit, and the narrative so far.
pub struct Game {
    pub arrows: u8,
    pub current_room: u8,
    pub messages: Vec<String>,
    pub wumpus: u8,
    pub bats: [u8; 2],
    pub pits: [u8; 2],
}

impl Game {
    /// The player and every hazard stand in rooms of the cave.
    pub open spec fn wf(self) -> bool {
        &&& valid_room(self.current_room as int)
        &&& valid_room(self.wumpus as int)
        &&& valid_room(self.bats@[0] as int)
        &&& valid_room(self.bats@[1] as int)
        &&& valid_room(self.pits@[0] as int)
        &&& valid_room(self.pits@[1] as int)
    }

    /// The five hazard rooms in placement order.
    pub open spec fn hazard_rooms(self) -> Seq<int> {
        seq![
            self.wumpus as int,
            self.bats@[0] as int,
            self.bats@[1] as int,
            self.pits@[0] as int,
            self.pits@[1] as int,
        ]
    }

    /// The five hazards sit in five different rooms, none of them the player's.
    pub open spec fn placement_distinct(self) -> bool {
        &&& forall|i: int, j: int|
            0 <= i < j < 5 ==> #[trigger] self.hazard_rooms()[i] != #[trigger] self.hazard_rooms()[j]
        &&& forall|i: int|
            0 <= i < 5 ==> #[trigger] self.hazard_rooms()[i] != self.current_room as int
    }

    /// The warning a neighboring room `t` earns, if any: the wumpus outranks a
    /// pit, a pit outranks a bat.
    pub open spec fn spec_warning_for(self, t: int) -> Option<Seq<char>> {
        if self.wumpus as int == t {
            Some(wumpus_warning())
        } else if self.pits@[0] as int == t || self.pits@[1] as int == t {
            Some(pit_warning())
        } else if self.bats@[0] as int == t || self.bats@[1] as int == t {
            Some(bat_warning())
        } else {
            None
        }
    }

    /// The warnings for the player's room: at most one line per exit, in exit
    /// order.
    pub open spec fn spec_warnings(self) -> Seq<Seq<char>> {
        let ex = cave_exits(self.current_room as int);
        opt_msg(self.spec_warning_for(ex[0])) + opt_msg(self.spec_warning_for(ex[1])) + opt_msg(
            self.spec_warning_for(ex[2]),
        )
    }

    /// The terminal narrative earned by standing in `room`, if any.
    pub open spec fn spec_terminal_at(self, room: int) -> Option<Seq<char>> {
        if self.wumpus as int == room {
            Some(wumpus_death())
        } else if self.pits@[0] as int == room || self.pits@[1] as int == room {
            Some(pit_death())
        } else {
            None
        }
    }

    /// The terminal narrative for the player's room, if the game is over.
    pub open spec fn spec_terminal(self) -> Option<Seq<char>> {
        self.spec_terminal_at(self.current_room as int)
    }

    /// The three exits of the player's room, for the shell to offer as moves.
    pub fn exits(&self) -> (ex: [u8; 3])
        requires
            self.wf(),
        ensures
            ex@.map_values(|x: u8| x as int) =~= cave_exits(self.current_room as int),
    {
        room_exits(self.current_room).unwrap()
    }

    /// The warning a neighboring room `t` earns, if any.
    fn warning_for(&self, t: u8) -> (r: Option<&'static str>)
        ensures
            match r {
                Some(m) => self.spec_warning_for(t as int) == Some(m@),
                None => self.spec_warning_for(t as int) is None,
            },
    {
        if self.wumpus == t {
            Some("You smell something horrific and rancid.")
        } else if self.pits[0] == t || self.pits[1] == t {
            Some("You feel a cold updraft from a nearby cavern.")
        } else if self.bats[0] == t || self.bats[1] == t {
            Some("You hear a faint but distinct flapping of wings.")
        } else {
            None
        }
    }

    /// The hazard warnings for the player's room, in exit order: at most one
    /// line per exit; the wumpus outranks a pit, a pit outranks a bat. The
    /// lines depend on the player's room and the hazard layout alone.
    pub fn warnings_for(&self) -> (v: Vec<String>)
        requires
            self.wf(),
        ensures
            log_of(v@) =~= self.spec_warnings(),
    {
        let ex = self.exits();
        let ghost exs = cave_exits(self.current_room as int);
        proof {
            assert(ex@.map_values(|x: u8| x as int)[0] == ex@[0] as int);
            assert(ex@.map_values(|x: u8| x as int)[1] == ex@[1] as int);
            assert(ex@.map_values(|x: u8| x as int)[2] == ex@[2] as int);
        }
        let mut v: Vec<String> = Vec::new();
        if let Some(m) = self.warning_for(ex[0]) {
            v.push(m.to_owned());
        }
        proof {
            assert(log_of(v@) =~= opt_msg(self.spec_warning_for(exs[0])));
        }
        let ghost v1 = v@;
        if let Some(m) = self.warning_for(ex[1]) {
            v.push(m.to_owned());
        }
        proof {
            assert(log_of(v@) =~= log_of(v1) + opt_msg(self.spec_warning_for(exs[1])));
        }
        let ghost v2 = v@;
        if let Some(m) = self.warning_for(ex[2]) {
            v.push(m.to_owned());
        }
        proof {
            assert(log_of(v@) =~= log_of(v2) + opt_msg(self.spec_warning_for(exs[2])));
        }
        v
    }

    /// The terminal narrative for the player's room: caught by the wumpus, or
    /// fallen into a pit, or neither.
    pub fn check_terminal(&self) -> (r: Option<String>)
        ensures
            match r {
                Some(m) => self.spec_terminal() == Some(m@),
                None => self.spec_terminal() is None,
            },
    {
        if self.current_room == self.wumpus {
            Some("You stumble into the lair of the wumpus. It eats you whole.".to_owned())
        } else if self.pits[0] == self.current_room || self.pits[1] == self.current_room {
            Some("You step into darkness and fall down a bottomless pit.".to_owned())
        } else {
            None
        }
    }
}

impl Game {
    /// Begins a session: the player in room 1 with five arrows, the opening
    /// line in the log, and the five hazards drawn in placement order, each
    /// draw excluding the rooms already taken.
    pub fn new_session(seed: u64) -> (g: Game)
        ensures
            g.wf(),
            g.placement_distinct(),
            g.current_room == 1,
            g.arrows == 5,
            log_of(g.messages@) =~= seq![intro_message()],
    {
        let mut rng = CaveRng::new(seed);
        let mut messages: Vec<String> = Vec::new();
        messages.push(
            "You've entered a clammy, dark cave, armed with 5 arrows.  You are very cold.".to_owned(),
        );
        let mut avoid: Vec<u8> = Vec::new();
        avoid.push(1);
        let wumpus = place_hazard(&mut rng, &avoid).unwrap();
        avoid.push(wumpus);
        let bat0 = place_hazard(&mut rng, &avoid).unwrap();
        avoid.push(bat0);
        let bat1 = place_hazard(&mut rng, &avoid).unwrap();
        avoid.push(bat1);
        let pit0 = place_hazard(&mut rng, &avoid).unwrap();
        avoid.push(pit0);
        let pit1 = place_hazard(&mut rng, &avoid).unwrap();
        proof {
            assert(avoid@ =~= seq![1u8, wumpus, bat0, bat1, pit0]);
        }
        let g = Game {
            arrows: 5,
            current_room: 1,
            messages,
            wumpus,
            bats: [bat0, bat1],
            pits: [pit0, pit1],
        };
        proof {
            assert(g.hazard_rooms() =~= seq![
                wumpus as int,
                bat0 as int,
                bat1 as int,
                pit0 as int,
                pit1 as int,
            ]);
            assert(log_of(g.messages@) =~= seq![intro_message()]);
        }
        g
    }

    /// The single mutator: walks the player to `target`.
    ///
    /// A target outside the cave is refused as an unknown room; a room of the
    /// cave that is not an exit of the player's room is refused as an illegal
    /// move; either refusal leaves the state untouched. An accepted move sets
    /// the player's room, appends that room's hazard warnings to the log, and
    /// reports whether the room ended the game. The player's room never
    /// changes to a room not adjacent to the one they stood in.
    pub fn move_to(&mut self, target: u8) -> (r: Result<MoveOutcome, GameError>)
        requires
            old(self).wf(),
        ensures
            final(self).wf(),
            final(self).wumpus == old(self).wumpus,
            final(self).bats == old(self).bats,
            final(self).pits == old(self).pits,
            final(self).arrows == old(self).arrows,
            final(self).current_room == old(self).current_room || is_exit(
                old(self).current_room as int,
                final(self).current_room as int,
            ),
            !valid_room(target as int) ==> r == Err::<MoveOutcome, GameError>(
                GameError::UnknownRoom,
            ) && *final(self) == *old(self),
            valid_room(target as int) && !is_exit(old(self).current_room as int, target as int)
                ==> r == Err::<MoveOutcome, GameError>(GameError::IllegalMove) && *final(self)
                == *old(self),
            is_exit(old(self).current_room as int, target as int) ==> {
                &&& final(self).current_room == target
                &&& log_of(final(self).messages@) =~= log_of(old(self).messages@)
                    + final(self).spec_warnings()
                &&& match r {
                    Ok(MoveOutcome::Continue) => old(self).spec_terminal_at(target as int) is None,
                    Ok(MoveOutcome::GameOver(m)) => old(self).spec_terminal_at(target as int)
                        == Some(m@),
                    Err(_) => false,
                }
            },
    {
        if !(1 <= target && target <= 20) {
            return Err(GameError::UnknownRoom);
        }
        let ex = self.exits();
        proof {
            assert(ex@.map_values(|x: u8| x as int)[0] == ex@[0] as int);
            assert(ex@.map_values(|x: u8| x as int)[1] == ex@[1] as int);
            assert(ex@.map_values(|x: u8| x as int)[2] == ex@[2] as int);
            lemma_exits_form(self.current_room as int);
        }
        if !(ex[0] == target || ex[1] == target || ex[2] == target) {
            proof {
                assert(!is_exit(self.current_room as int, target as int)) by {
                    let exs = cave_exits(self.current_room as int);
                    if exs.contains(target as int) {
                        let i = choose|i: int| 0 <= i < exs.len() && exs[i] == target as int;
                        assert(ex@[i] == target);
                    }
                }
            }
            return Err(GameError::IllegalMove);
        }
        proof {
            assert(cave_exits(self.current_room as int).contains(target as int)) by {
                if ex@[0] == target {
                    assert(cave_exits(self.current_room as int)[0] == target as int);
                } else if ex@[1] == target {
                    assert(cave_exits(self.current_room as int)[1] == target as int);
                } else {
                    assert(cave_exits(self.current_room as int)[2] == target as int);
                }
            }
        }
        self.current_room = target;
        let warnings = self.warnings_for();
        let ghost before_log = self.messages@;
        let mut i: usize = 0;
        while i < warnings.len()
            invariant
                0 <= i <= warnings@.len(),
                self.wf(),
                self.current_room == target,
                self.wumpus == old(self).wumpus,
                self.bats == old(self).bats,
                self.pits == old(self).pits,
                self.arrows == old(self).arrows,
                log_of(warnings@) =~= self.spec_warnings(),
                log_of(self.messages@) =~= log_of(before_log) + log_of(warnings@).take(i as int),
            decreases warnings@.len() - i,
        {
            let line = warnings[i].clone();
            let ghost prev = self.messages@;
            self.messages.push(line);
            proof {
                prev.lemma_push_map_commute(|m: String| m@, line);
                assert(log_of(self.messages@) =~= log_of(prev).push(warnings@[i as int]@));
                assert(log_of(warnings@).take(i + 1) =~= log_of(warnings@).take(i as int).push(
                    warnings@[i as int]@,
                ));
                assert(log_of(self.messages@) =~= log_of(before_log) + log_of(warnings@).take(
                    i + 1,
                ));
            }
            i += 1;
        }
        proof {
            assert(log_of(warnings@).take(warnings@.len() as int) =~= log_of(warnings@));
        }
        match self.check_terminal() {
            Some(m) => Ok(MoveOutcome::GameOver(m)),
            None => Ok(MoveOutcome::Continue),
        }
    }
}

/// A single warning as a log fragment: one line, or none.
pub open spec fn opt_msg(o: Option<Seq<char>>) -> Seq<Seq<char>> {
    match o {
        Some(m) => seq![m],
        None => seq![],
    }
}

/// Warning generation is deterministic: the warnings depend on the player's
/// room and the hazard layout alone, so two states that agree on those yield
/// the same ordered message sequence, whatever else differs between them.
pub proof fn lemma_warnings_deterministic(a: Game, b: Game)
    requires
        a.current_room == b.current_room,
        a.wumpus == b.wumpus,
        a.bats == b.bats,
        a.pits == b.pits,
    ensures
        a.spec_warnings() == b.spec_warnings(),
{
    assert(a.spec_warnings() =~= b.spec_warnings());
}

} // verus!
