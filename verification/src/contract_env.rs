use vstd::prelude::*;

verus! {

/// An on-chain account: 32 raw bytes of identity. The game logic only stores
/// and compares whole values.
#[derive(Clone, Copy, Debug, PartialEq, Eq, Hash)]
pub struct AccountId(pub [u8; 32]);

/// The chain's balance type.
pub type Balance = u128;

/// The ways a call into the contract environment can fail, by name; the game
/// logic reads only which one happened.
#[derive(Clone, Copy, Debug, PartialEq, Eq, Structural)]
pub enum EnvError {
    Decode,
    CalleeTrapped,
    CalleeReverted,
    KeyNotFound,
    _BelowSubsistenceThreshold,
    TransferFailed,
    _EndowmentTooLow,
    CodeNotFound,
    NotCallable,
    Unknown,
    LoggingDisabled,
    EcdsaRecoveryFailed,
    OffChain,
}

/// Whether two accounts are the same, usable from verified code.
pub fn account_eq(a: &AccountId, b: &AccountId) -> (r: bool)
    ensures
        r == (*a == *b),
{
    let mut i: usize = 0;
    #[verifier::loop_isolation(false)]
    while i < 32
        invariant
            i <= 32,
            forall|j: int| 0 <= j < i ==> a.0@[j] == b.0@[j],
        decreases 32 - i,
    {
        if a.0[i] != b.0[i] {
            assert(a.0@[i as int] != b.0@[i as int]);
            assert(*a != *b);
            return false;
        }
        i += 1;
    }
    proof {
        assert(a.0@ =~= b.0@);
        assert(a.0 == b.0);
    }
    true
}

} // verus!
