use vstd::prelude::*;

verus! {

/// Summary of a resolved attack.
#[derive(Clone, Copy, Debug, PartialEq, Eq, Structural)]
pub struct AttackResolved {
    pub attacker_tile_color: u8,
    /// Resources on the attacker's tile after the outcome.
    pub attacker_resources: u16,
    /// 0-999
    pub attacker_roll_result: u16,
    pub defender_tile_color: u8,
    /// Resources on the defender's tile after the outcome.
    pub defender_resources: u16,
    /// 0-999
    pub defender_roll_result: u16,
    /// Resources lost by the losing side.
    pub hit_resource_count: u8,
}

/// Emitted when the fourth player joins and the game clock starts.
#[derive(Clone, Copy, Debug, PartialEq, Eq, Structural)]
pub struct GameStarted {
    pub game_id: u64,
}

} // verus!
