use vstd::prelude::*;

verus! {

/// A player entity, by id.
#[derive(Clone, Copy, Debug, PartialEq, Eq, Structural)]
pub struct Player(pub u32);

/// The id of the player that movement drives and the camera follows.
#[derive(Clone, Copy, Debug, PartialEq, Eq, Structural)]
pub struct MainPlayer(pub u32);

/// Some player of `players` has the main player's id.
pub open spec fn main_resolvable(main: Option<MainPlayer>, players: Seq<Player>) -> bool {
    match main {
        Some(mp) => exists|i: int| 0 <= i < players.len() && players[i].0 == mp.0,
        None => false,
    }
}

/// The index of the first player with the main player's id. `None` when no
/// player is designated main or none has that id: the camera then stays idle
/// and movement does nothing.
pub fn find_main_player(main: Option<MainPlayer>, players: &Vec<Player>) -> (r: Option<usize>)
    ensures
        r is None <==> !main_resolvable(main, players@),
        r matches Some(i) ==> main matches Some(mp) && {
            &&& i < players@.len()
            &&& players@[i as int].0 == mp.0
            &&& forall|j: int| 0 <= j < i ==> players@[j].0 != mp.0
        },
{
    match main {
        None => None,
        Some(mp) => {
            let mut i: usize = 0;
            while i < players.len()
                invariant
                    i <= players.len(),
                    main == Some(mp),
                    forall|j: int| 0 <= j < i ==> players@[j].0 != mp.0,
                decreases players.len() - i,
            {
                if players[i].0 == mp.0 {
                    assert(0 <= i < players@.len() && players@[i as int].0 == mp.0);
                    return Some(i);
                }
                i = i + 1;
            }
            None
        },
    }
}

} // verus!
