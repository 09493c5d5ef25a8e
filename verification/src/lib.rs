//! Hunt the Wumpus: the cave simulation engine.
//!
//! Twenty chambers are joined as a dodecahedron, three exits each. A session
//! places one wumpus, two bats and two pits in distinct rooms away from the
//! starting chamber, then lets the player walk from room to room. Each move is
//! validated against the cave graph, appends hazard-proximity warnings to the
//! message log, and ends the session when the player steps into the wumpus's
//! room or a pit.

pub mod controls;
pub mod game;
pub mod rng;
pub mod session;
pub mod topology;
