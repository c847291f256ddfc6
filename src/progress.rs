use vstd::prelude::*;

use crate::identity::PlayerKey;
use crate::levels::LEVEL_COUNT;
use crate::levels::valid_level;

verus! {

/// Bit `i` of `bits` is set.
pub open spec fn bit_set(bits: u64, i: u64) -> bool {
    bits & (1u64 << i) != 0
}

/// The set of unlocked levels: level `L` is unlocked when bit `L - 1` is set.
#[derive(Clone, Copy, Debug, PartialEq, Eq, Structural)]
pub struct UnlockSet {
    pub bits: u64,
}

impl UnlockSet {
    /// Level `level` is in the set.
    pub open spec fn contains(&self, level: int) -> bool {
        1 <= level <= 64 && bit_set(self.bits, (level - 1) as u64)
    }

    /// The set with level 1 alone.
    pub fn first_level_only() -> (r: UnlockSet)
        ensures
            forall|l: int| #[trigger] r.contains(l) <==> l == 1,
            r.bits == 1,
    {
        let r = UnlockSet { bits: 1 };
        assert forall|l: int| #[trigger] r.contains(l) <==> l == 1 by {
            if 1 <= l <= 64 {
                let i = (l - 1) as u64;
                assert(1u64 & (1u64 << i) != 0 <==> i == 0) by (bit_vector)
                    requires i < 64;
            }
        }
        r
    }

    /// Level `level` is unlocked.
    pub fn is_unlocked(&self, level: u8) -> (r: bool)
        requires
            1 <= level <= 64,
        ensures
            r == self.contains(level as int),
    {
        self.bits & (1u64 << (level - 1)) != 0
    }

    /// Adds level `level` to the set; levels already in it stay.
    pub fn unlock(&mut self, level: u8)
        requires
            1 <= level <= 64,
        ensures
            forall|l: int| #[trigger] final(self).contains(l) <==> old(self).contains(l) || l == level,
    {
        let old_bits = self.bits;
        let i = (level - 1) as u64;
        self.bits = self.bits | (1u64 << i);
        let new_bits = self.bits;
        assert forall|l: int| #[trigger] final(self).contains(l) <==> old(self).contains(l) || l == level by {
            if 1 <= l <= 64 {
                let j = (l - 1) as u64;
                assert(bit_set(new_bits, j) <==> bit_set(old_bits, j) || j == i) by (bit_vector)
                    requires
                        new_bits == old_bits | (1u64 << i),
                        i < 64,
                        j < 64;
            }
        }
    }
}

/// A player's progression record.
#[derive(Clone, Copy, Debug)]
pub struct PlayerProfile {
    pub authority: PlayerKey,
    pub total_games: u64,
    pub total_wins: u64,
    pub highest_level: u8,
    pub unlocked_levels: UnlockSet,
    /// Sum of the scores of won games.
    pub total_candies_collected: u64,
    pub total_nfts_minted: u64,
    pub created_at: i64,
}

/// A new player's profile: no games, level 1 unlocked and reached.
pub fn initialize_player(authority: PlayerKey, now: i64) -> (p: PlayerProfile)
    ensures
        p.authority == authority,
        p.total_games == 0,
        p.total_wins == 0,
        p.highest_level == 1,
        forall|l: int| #[trigger] p.unlocked_levels.contains(l) <==> l == 1,
        p.total_candies_collected == 0,
        p.total_nfts_minted == 0,
        p.created_at == now,
{
    PlayerProfile {
        authority,
        total_games: 0,
        total_wins: 0,
        highest_level: 1,
        unlocked_levels: UnlockSet::first_level_only(),
        total_candies_collected: 0,
        total_nfts_minted: 0,
        created_at: now,
    }
}

/// The counters of `p` leave room for recording one more game of `level`
/// with `final_score`.
pub open spec fn can_record(p: PlayerProfile, final_score: u64, won: bool) -> bool {
    &&& p.total_games < u64::MAX
    &&& won ==> p.total_wins < u64::MAX
    &&& won ==> p.total_candies_collected + final_score <= u64::MAX
}

/// `q` is `p` after recording a game of `level` that ended with
/// `final_score`, won or not.
pub open spec fn recorded(p: PlayerProfile, q: PlayerProfile, level: int, final_score: u64, won: bool) -> bool {
    &&& q.authority == p.authority
    &&& q.created_at == p.created_at
    &&& q.total_nfts_minted == p.total_nfts_minted
    &&& q.total_games == p.total_games + 1
    &&& q.total_wins == if won { p.total_wins + 1 } else { p.total_wins as int }
    &&& q.total_candies_collected == if won {
        p.total_candies_collected + final_score
    } else {
        p.total_candies_collected as int
    }
    &&& forall|l: int| #[trigger] q.unlocked_levels.contains(l)
        <==> p.unlocked_levels.contains(l) || (won && level < LEVEL_COUNT && l == level + 1)
    &&& q.highest_level == if won && level > p.highest_level { level } else { p.highest_level as int }
}

/// Progression only grows: recording a game never locks a level again nor
/// lowers the highest level reached.
pub proof fn lemma_progress_monotone(p: PlayerProfile, q: PlayerProfile, level: int, final_score: u64, won: bool)
    requires
        recorded(p, q, level, final_score, won),
    ensures
        forall|l: int| p.unlocked_levels.contains(l) ==> #[trigger] q.unlocked_levels.contains(l),
        q.highest_level >= p.highest_level,
{
}

/// Records the outcome of a game of `level`: one more game; on a win also one
/// more win, the score added to the collected candies, the next level
/// unlocked and the highest level raised to `level` if it was lower.
pub fn apply_result(profile: &mut PlayerProfile, level: u8, final_score: u64, won: bool)
    requires
        valid_level(level as int),
        can_record(*old(profile), final_score, won),
    ensures
        recorded(*old(profile), *final(profile), level as int, final_score, won),
{
    profile.total_games = profile.total_games + 1;
    if won {
        profile.total_wins = profile.total_wins + 1;
        profile.total_candies_collected = profile.total_candies_collected + final_score;
        if level < LEVEL_COUNT {
            profile.unlocked_levels.unlock(level + 1);
        }
        if level > profile.highest_level {
            profile.highest_level = level;
        }
    }
}

} // verus!
