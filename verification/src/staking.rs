//! Staking tiers for room creation.
//!
//! Rooms are provisioned by a separate lifecycle subsystem; the ledger only
//! needs the pure rule that maps each room type to the staking tier its
//! host must hold.

use vstd::prelude::*;

verus! {

/// Staking tiers, ordered by the stake they require.
#[derive(Debug, Clone, Copy, PartialEq, Eq, Structural)]
pub enum StakingTier {
    Basic,
    Podcast,
    SoloStream,
    MultiStream,
    RelayNode,
}

/// The kinds of room a host can open.
#[derive(Debug, Clone, Copy, PartialEq, Eq, Structural)]
pub enum RoomType {
    PrivateMeeting,
    Podcast,
    SoloStream,
    MultiStream,
}

impl RoomType {
    /// The staking tier a host must hold to open a room of this type.
    pub fn required_tier(&self) -> (r: StakingTier)
        ensures
            self is PrivateMeeting ==> r is Basic,
            self is Podcast ==> r is Podcast,
            self is SoloStream ==> r is SoloStream,
            self is MultiStream ==> r is MultiStream,
    {
        match self {
            RoomType::PrivateMeeting => StakingTier::Basic,
            RoomType::Podcast => StakingTier::Podcast,
            RoomType::SoloStream => StakingTier::SoloStream,
            RoomType::MultiStream => StakingTier::MultiStream,
        }
    }
}

} // verus!
