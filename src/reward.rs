use vstd::prelude::*;

use crate::error::CandyCrushError;
use crate::identity::PlayerKey;
use crate::levels::level_config;
use crate::levels::level_spec;
use crate::progress::PlayerProfile;
use crate::session::GameSession;

verus! {

/// Reward category of a won game.
#[derive(Clone, Copy, Debug, PartialEq, Eq, Structural)]
pub enum RarityTier {
    Common,
    Rare,
    Epic,
    Legendary,
}

impl RarityTier {
    /// The tier's display name.
    pub fn name(&self) -> (r: &'static str) {
        match self {
            RarityTier::Common => "Common",
            RarityTier::Rare => "Rare",
            RarityTier::Epic => "Epic",
            RarityTier::Legendary => "Legendary",
        }
    }
}

/// The tier of a score that reached `pct` percent of its target.
pub open spec fn tier_of_percent(pct: int) -> RarityTier {
    if pct >= 200 {
        RarityTier::Legendary
    } else if pct >= 150 {
        RarityTier::Epic
    } else if pct >= 120 {
        RarityTier::Rare
    } else {
        RarityTier::Common
    }
}

/// Whole percent of `target_score` that `score` reaches, rounded down.
pub open spec fn score_percent(score: u64, target_score: u64) -> int
    recommends
        target_score > 0,
{
    (score as int * 100) / target_score as int
}

/// The tier of a winning `score` against `target_score`.
pub fn rarity_tier(score: u64, target_score: u64) -> (r: RarityTier)
    requires
        target_score > 0,
        score >= target_score,
    ensures
        r == tier_of_percent(score_percent(score, target_score)),
{
    let pct: u128 = (score as u128 * 100) / target_score as u128;
    if pct >= 200 {
        RarityTier::Legendary
    } else if pct >= 150 {
        RarityTier::Epic
    } else if pct >= 120 {
        RarityTier::Rare
    } else {
        RarityTier::Common
    }
}

/// The record that counts every reward handed out.
#[derive(Clone, Copy, Debug)]
pub struct VictoryCollection {
    pub authority: PlayerKey,
    pub total_victories: u64,
}

/// A new collection owned by `authority`, with no victories yet.
pub fn initialize_collection(authority: PlayerKey) -> (c: VictoryCollection)
    ensures
        c.authority == authority,
        c.total_victories == 0,
{
    VictoryCollection { authority, total_victories: 0 }
}

/// Why a reward for `s` is refused, if it is.
pub open spec fn reward_error(s: GameSession) -> Option<CandyCrushError> {
    if s.is_active {
        Some(CandyCrushError::GameStillActive)
    } else if s.score < level_spec(s.level as int).target_score {
        Some(CandyCrushError::InsufficientScore)
    } else {
        None
    }
}

/// Grants the reward of an ended, won session: returns its tier and counts
/// one more reward for the player and for the collection. A session still
/// active, or one whose score is below the level's target, is refused with
/// both counters unchanged.
pub fn mint_victory_nft(
    session: &GameSession,
    profile: &mut PlayerProfile,
    collection: &mut VictoryCollection,
) -> (r: Result<RarityTier, CandyCrushError>)
    requires
        session.wf(),
        old(profile).total_nfts_minted < u64::MAX,
        old(collection).total_victories < u64::MAX,
    ensures
        match reward_error(*session) {
            Some(e) => r == Err::<RarityTier, CandyCrushError>(e) && *final(profile) == *old(profile)
                && *final(collection) == *old(collection),
            None => {
                &&& r == Ok::<RarityTier, CandyCrushError>(
                    tier_of_percent(score_percent(session.score, session.target_score())),
                )
                &&& *final(profile) == (PlayerProfile {
                    total_nfts_minted: (old(profile).total_nfts_minted + 1) as u64,
                    ..*old(profile)
                })
                &&& *final(collection) == (VictoryCollection {
                    total_victories: (old(collection).total_victories + 1) as u64,
                    ..*old(collection)
                })
            },
        },
{
    if session.is_active {
        return Err(CandyCrushError::GameStillActive);
    }
    let config = match level_config(session.level) {
        Ok(c) => c,
        Err(e) => return Err(e),
    };
    if session.score < config.target_score {
        return Err(CandyCrushError::InsufficientScore);
    }
    let tier = rarity_tier(session.score, config.target_score);
    profile.total_nfts_minted = profile.total_nfts_minted + 1;
    collection.total_victories = collection.total_victories + 1;
    Ok(tier)
}

} // verus!
