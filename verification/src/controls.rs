//! Presentation data for the controls panel: the exits offered to the player.

use vstd::prelude::*;

verus! {

/// What the shell hands the panel: the three exits of the player's room.
#[derive(Clone, PartialEq)]
pub struct Props {
    pub exits: [u8; 3],
}

impl Default for Props {
    /// Before the first game there are no exits to offer.
    fn default() -> (p: Props)
        ensures
            p.exits@ =~= seq![0u8, 0u8, 0u8],
    {
        Props { exits: [0, 0, 0] }
    }
}

/// The controls panel: its title and the exits it offers.
pub struct Controls {
    pub title: String,
    pub exits: [u8; 3],
}

impl Controls {
    /// A panel for the given properties.
    pub fn create(props: Props) -> (c: Controls)
        ensures
            c.title@ == "Controls"@,
            c.exits == props.exits,
    {
        Controls { title: "Controls".to_owned(), exits: props.exits }
    }
}

} // verus!
