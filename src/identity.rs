use vstd::prelude::*;

verus! {

/// A 32-byte account identity.
#[derive(Clone, Copy, Debug)]
pub struct PlayerKey {
    pub bytes: [u8; 32],
}

impl PlayerKey {
    /// Both keys hold the same bytes.
    pub fn same_as(&self, other: &PlayerKey) -> (r: bool)
        ensures
            r == (self.bytes@ == other.bytes@),
    {
        let mut i: usize = 0;
        while i < 32
            invariant
                i <= 32,
                self.bytes@.len() == 32,
                other.bytes@.len() == 32,
                forall|k: int| 0 <= k < i ==> self.bytes@[k] == other.bytes@[k],
            decreases 32 - i,
        {
            if self.bytes[i] != other.bytes[i] {
                return false;
            }
            i = i + 1;
        }
        assert(self.bytes@ =~= other.bytes@);
        true
    }
}

/// How the caller of a move proves that it acts for the session's player.
#[derive(Clone, Copy, Debug)]
pub enum Credential {
    /// The caller signs as the player itself.
    DirectIdentity,
    /// The caller signs with a session key that the player granted.
    DelegatedCredential {
        /// The player that granted the session key.
        authority: PlayerKey,
        /// The key allowed to sign in the player's name.
        session_signer: PlayerKey,
        /// Unix time from which the grant no longer holds.
        valid_until: i64,
    },
}

/// Whether `credential`, presented by `caller` at time `now`, lets it act for
/// `expected`.
pub open spec fn authorized(credential: Credential, caller: PlayerKey, expected: PlayerKey, now: i64) -> bool {
    match credential {
        Credential::DirectIdentity => caller.bytes@ == expected.bytes@,
        Credential::DelegatedCredential { authority, session_signer, valid_until } => {
            &&& authority.bytes@ == expected.bytes@
            &&& session_signer.bytes@ == caller.bytes@
            &&& now < valid_until
        },
    }
}

/// Decides whether `caller` may act for `expected`: directly when it is that
/// identity, or through a session key that `expected` granted to `caller`
/// and that has not expired at `now`.
pub fn authorize(credential: &Credential, caller: &PlayerKey, expected: &PlayerKey, now: i64) -> (r: bool)
    ensures
        r == authorized(*credential, *caller, *expected, now),
{
    match credential {
        Credential::DirectIdentity => caller.same_as(expected),
        Credential::DelegatedCredential { authority, session_signer, valid_until } => {
            authority.same_as(expected) && session_signer.same_as(caller) && now < *valid_until
        },
    }
}

} // verus!
