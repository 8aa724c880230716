use vstd::prelude::*;

use crate::contract_env::{account_eq, AccountId, Balance, EnvError};

verus! {

/// How many blocks the button lives for: seven days at one block a second.
pub const BUTTON_LIFETIME: u32 = 604800;

/// The game's error conditions.
#[derive(Clone, Debug, PartialEq, Eq)]
pub enum Error {
    /// The account already pressed the button.
    AlreadyParticipated,
    /// The button was pressed after the deadline.
    AfterDeadline,
    /// A call to another contract failed.
    ContractCallError(String),
}

/// The fixed text reported when a call into the environment fails with the
/// given error.
pub open spec fn env_error_message(e: EnvError) -> Seq<char> {
    match e {
        EnvError::Decode => "Contract call failed due to Decode error"@,
        EnvError::CalleeTrapped => "Contract call failed due to CalleeTrapped error"@,
        EnvError::CalleeReverted => "Contract call failed due to CalleeReverted error"@,
        EnvError::KeyNotFound => "Contract call failed due to KeyNotFound error"@,
        EnvError::_BelowSubsistenceThreshold => "Contract call failed due to _BelowSubsistenceThreshold error"@,
        EnvError::TransferFailed => "Contract call failed due to TransferFailed error"@,
        EnvError::_EndowmentTooLow => "Contract call failed due to _EndowmentTooLow error"@,
        EnvError::CodeNotFound => "Contract call failed due to CodeNotFound error"@,
        EnvError::NotCallable => "Contract call failed due to NotCallable error"@,
        EnvError::Unknown => "Contract call failed due to Unknown error"@,
        EnvError::LoggingDisabled => "Contract call failed due to LoggingDisabled error"@,
        EnvError::EcdsaRecoveryFailed => "Contract call failed due to EcdsaRecoveryFailed error"@,
        EnvError::OffChain => "Contract call failed due to OffChain error"@,
    }
}

impl Error {
    /// Every failure of the contract environment surfaces as a contract-call
    /// error carrying the fixed text for its kind.
    pub fn from_env_error(e: &EnvError) -> (r: Error)
        ensures
            r matches Error::ContractCallError(m) && m@ == env_error_message(*e),
    {
        match e {
            EnvError::Decode => Error::ContractCallError(
                "Contract call failed due to Decode error".to_owned(),
            ),
            EnvError::CalleeTrapped => Error::ContractCallError(
                "Contract call failed due to CalleeTrapped error".to_owned(),
            ),
            EnvError::CalleeReverted => Error::ContractCallError(
                "Contract call failed due to CalleeReverted error".to_owned(),
            ),
            EnvError::KeyNotFound => Error::ContractCallError(
                "Contract call failed due to KeyNotFound error".to_owned(),
            ),
            EnvError::_BelowSubsistenceThreshold => Error::ContractCallError(
                "Contract call failed due to _BelowSubsistenceThreshold error".to_owned(),
            ),
            EnvError::TransferFailed => Error::ContractCallError(
                "Contract call failed due to TransferFailed error".to_owned(),
            ),
            EnvError::_EndowmentTooLow => Error::ContractCallError(
                "Contract call failed due to _EndowmentTooLow error".to_owned(),
            ),
            EnvError::CodeNotFound => Error::ContractCallError(
                "Contract call failed due to CodeNotFound error".to_owned(),
            ),
            EnvError::NotCallable => Error::ContractCallError(
                "Contract call failed due to NotCallable error".to_owned(),
            ),
            EnvError::Unknown => Error::ContractCallError(
                "Contract call failed due to Unknown error".to_owned(),
            ),
            EnvError::LoggingDisabled => Error::ContractCallError(
                "Contract call failed due to LoggingDisabled error".to_owned(),
            ),
            EnvError::EcdsaRecoveryFailed => Error::ContractCallError(
                "Contract call failed due to EcdsaRecoveryFailed error".to_owned(),
            ),
            EnvError::OffChain => Error::ContractCallError(
                "Contract call failed due to OffChain error".to_owned(),
            ),
        }
    }
}

/// Event emitted when the button is pressed.
#[derive(Clone, Copy, Debug, PartialEq, Eq)]
pub struct ButtonPressed {
    pub from: AccountId,
    pub when: u32,
}

/// What one press decides: either the game's deadline branch fired — the
/// caller must settle the game by calling `death` with the token balance —
/// or the press was recorded.
#[derive(Clone, Copy, Debug, PartialEq, Eq)]
pub enum PressOutcome {
    Death,
    Pressed,
}

/// The button game's storage. The block number and the caller come from the
/// contract environment; the cross-contract token calls are performed by the
/// surrounding runtime from the payout schedule `death` computes.
pub struct TheButton {
    is_dead: bool,
    deadline: u32,
    /// Each participant with its score, in press order; doubles as the list
    /// of participating accounts.
    presses: Vec<(AccountId, u32)>,
    total_scores: u32,
    last_presser: Option<AccountId>,
    last_press: u32,
    button_token: AccountId,
}

impl TheButton {
    pub closed spec fn spec_is_dead(&self) -> bool {
        self.is_dead
    }

    pub closed spec fn spec_deadline(&self) -> u32 {
        self.deadline
    }

    pub closed spec fn spec_presses(&self) -> Seq<(AccountId, u32)> {
        self.presses@
    }

    pub closed spec fn spec_total_scores(&self) -> u32 {
        self.total_scores
    }

    pub closed spec fn spec_last_presser(&self) -> Option<AccountId> {
        self.last_presser
    }

    pub closed spec fn spec_last_press(&self) -> u32 {
        self.last_press
    }

    pub closed spec fn spec_button_token(&self) -> AccountId {
        self.button_token
    }

    /// Whether the account has already pressed.
    pub open spec fn spec_has_pressed(&self, account: AccountId) -> bool {
        exists|i: int| 0 <= i < self.spec_presses().len() && self.spec_presses()[i].0 == account
    }

    /// Each account presses at most once, and no score exceeds their sum.
    pub open spec fn well_formed(&self) -> bool {
        &&& forall|i: int, j: int|
            0 <= i < j < self.spec_presses().len() ==> (#[trigger] self.spec_presses()[i]).0 != (
            #[trigger] self.spec_presses()[j]).0
        &&& forall|i: int|
            0 <= i < self.spec_presses().len() ==> (#[trigger] self.spec_presses()[i]).1
                <= self.spec_total_scores()
    }

    /// A new button is alive, has seen no presses, and expires one lifetime
    /// after the block it was created in.
    pub fn new(now: u32, button_token: AccountId) -> (r: TheButton)
        requires
            now + BUTTON_LIFETIME <= u32::MAX,
        ensures
            r.well_formed(),
            !r.spec_is_dead(),
            r.spec_deadline() == now + BUTTON_LIFETIME,
            r.spec_presses().len() == 0,
            r.spec_total_scores() == 0,
            r.spec_last_presser() is None,
            r.spec_last_press() == 0,
            r.spec_button_token() == button_token,
    {
        TheButton {
            is_dead: false,
            deadline: now + BUTTON_LIFETIME,
            presses: Vec::new(),
            total_scores: 0,
            last_presser: None,
            last_press: 0,
            button_token,
        }
    }

    fn has_pressed(&self, account: &AccountId) -> (r: bool)
        ensures
            r == self.spec_has_pressed(*account),
    {
        let mut i: usize = 0;
        #[verifier::loop_isolation(false)]
        while i < self.presses.len()
            invariant
                i <= self.presses@.len(),
                forall|j: int| 0 <= j < i ==> (#[trigger] self.presses@[j]).0 != *account,
            decreases self.presses@.len() - i,
        {
            if account_eq(&self.presses[i].0, account) {
                assert(self.spec_presses()[i as int].0 == *account);
                return true;
            }
            i += 1;
        }
        false
    }

    /// One press of the button at block `now` by `caller`. The checks come
    /// in this order: a dead button rejects the press; a press at or before
    /// the deadline ends the game; a returning participant is rejected; and
    /// otherwise the press is recorded with a score of the blocks since the
    /// last press, and the deadline starts over.
    pub fn press(&mut self, now: u32, caller: AccountId) -> (r: Result<PressOutcome, Error>)
        requires
            old(self).well_formed(),
            press_records(*old(self), now, caller) ==> old(self).spec_last_press() <= now && old(
                self,
            ).spec_total_scores() + (now - old(self).spec_last_press()) <= u32::MAX && now
                + BUTTON_LIFETIME <= u32::MAX,
        ensures
            final(self).well_formed(),
            press_post(*old(self), *final(self), now, caller, r),
    {
        if self.is_dead {
            return Err(Error::AfterDeadline);
        }
        if self.deadline >= now {
            // the deadline branch: the game ends
            return Ok(PressOutcome::Death);
        }
        if self.has_pressed(&caller) {
            return Err(Error::AlreadyParticipated);
        }
        // the score is the number of blocks the button's life was extended by
        let score = now - self.last_press;
        self.presses.push((caller, score));
        self.last_presser = Some(caller);
        self.last_press = now;
        self.total_scores = self.total_scores + score;
        self.deadline = now + BUTTON_LIFETIME;
        proof {
            assert forall|i: int|
                0 <= i < old(self).spec_presses().len() implies (#[trigger] old(
                self,
            ).spec_presses()[i]).0 != caller by {
                if old(self).spec_presses()[i].0 == caller {
                    assert(old(self).spec_has_pressed(caller));
                }
            }
            assert(self.spec_presses() == old(self).spec_presses().push((caller, score)));
            assert forall|i: int, j: int|
                0 <= i < j < self.spec_presses().len() implies (#[trigger] self.spec_presses()[i]).0
                != (#[trigger] self.spec_presses()[j]).0 by {
                if j == self.spec_presses().len() - 1 {
                    assert(self.spec_presses()[i] == old(self).spec_presses()[i]);
                }
            }
            assert forall|i: int|
                0 <= i < self.spec_presses().len() implies (#[trigger] self.spec_presses()[i]).1
                <= self.spec_total_scores() by {
                if i < self.spec_presses().len() - 1 {
                    assert(self.spec_presses()[i] == old(self).spec_presses()[i]);
                }
            }
        }
        Ok(PressOutcome::Pressed)
    }

    /// Ends the game: marks the button dead and lays out the payout schedule
    /// for the token balance the button holds — half to the last presser, and
    /// of the rest each participant's integer share. The runtime performs the
    /// transfers.
    pub fn death(&mut self, total_balance: Balance) -> (r: Vec<(AccountId, Balance)>)
        requires
            old(self).well_formed(),
            old(self).spec_presses().len() > 0 ==> old(self).spec_total_scores() > 0,
        ensures
            final(self).well_formed(),
            final(self).spec_is_dead(),
            final(self).spec_deadline() == old(self).spec_deadline(),
            final(self).spec_presses() == old(self).spec_presses(),
            final(self).spec_total_scores() == old(self).spec_total_scores(),
            final(self).spec_last_presser() == old(self).spec_last_presser(),
            final(self).spec_last_press() == old(self).spec_last_press(),
            final(self).spec_button_token() == old(self).spec_button_token(),
            death_payouts_post(*old(self), total_balance, r@),
    {
        self.is_dead = true;
        let mut payouts: Vec<(AccountId, Balance)> = Vec::new();
        let pressiah_reward = total_balance / 2;
        match self.last_presser {
            Some(pressiah) => payouts.push((pressiah, pressiah_reward)),
            None => {},
        }
        let ghost lead = payouts@.len() as int;
        let total = self.total_scores;
        let remaining = total_balance - pressiah_reward;
        let mut i: usize = 0;
        #[verifier::loop_isolation(false)]
        while i < self.presses.len()
            invariant
                i <= self.presses@.len(),
                payouts@.len() == lead + i,
                old(self).spec_last_presser() matches Some(p) ==> lead == 1 && payouts@[0] == (
                    p,
                    total_balance / 2,
                ),
                old(self).spec_last_presser() is None ==> lead == 0,
                forall|j: int|
                    0 <= j < i ==> #[trigger] payouts@[lead + j] == (
                    self.presses@[j].0,
                    participant_reward(self.presses@[j].1, total, remaining as int) as u128,
                ),
            decreases self.presses@.len() - i,
        {
            let entry = self.presses[i];
            let score = entry.1;
            proof {
                assert(old(self).spec_presses().len() > 0);
                assert(total >= 1);
                assert(score == self.presses@[i as int].1);
                assert(score <= total);
                assert(score / total <= 1) by (nonlinear_arith)
                    requires
                        score <= total,
                        total >= 1,
                ;
            }
            let quotient = score / total;
            assert(quotient == 0 || quotient == 1);
            proof {
                assert((quotient as int) * (remaining as int) <= remaining as int)
                    by (nonlinear_arith)
                    requires
                        0 <= quotient as int <= 1,
                        0 <= remaining as int,
                ;
            }
            let reward = (quotient as u128) * remaining;
            payouts.push((entry.0, reward));
            proof {
                assert(reward as int == participant_reward(
                    self.presses@[i as int].1,
                    total,
                    remaining as int,
                ));
                assert(payouts@[lead + i as int] == (self.presses@[i as int].0, reward));
            }
            i += 1;
        }
        payouts
    }
}

/// Whether the press at `now` by `caller` reaches the recording branch.
pub open spec fn press_records(s: TheButton, now: u32, caller: AccountId) -> bool {
    &&& !s.spec_is_dead()
    &&& s.spec_deadline() < now
    &&& !s.spec_has_pressed(caller)
}

/// Nothing about the button's state changed.
pub open spec fn button_unchanged(a: TheButton, b: TheButton) -> bool {
    &&& b.spec_is_dead() == a.spec_is_dead()
    &&& b.spec_deadline() == a.spec_deadline()
    &&& b.spec_presses() == a.spec_presses()
    &&& b.spec_total_scores() == a.spec_total_scores()
    &&& b.spec_last_presser() == a.spec_last_presser()
    &&& b.spec_last_press() == a.spec_last_press()
    &&& b.spec_button_token() == a.spec_button_token()
}

/// Everything `press` promises, by branch.
pub open spec fn press_post(
    s0: TheButton,
    s1: TheButton,
    now: u32,
    caller: AccountId,
    r: Result<PressOutcome, Error>,
) -> bool {
    if s0.spec_is_dead() {
        r == Err::<PressOutcome, Error>(Error::AfterDeadline) && button_unchanged(s0, s1)
    } else if s0.spec_deadline() >= now {
        r == Ok::<PressOutcome, Error>(PressOutcome::Death) && button_unchanged(s0, s1)
    } else if s0.spec_has_pressed(caller) {
        r == Err::<PressOutcome, Error>(Error::AlreadyParticipated) && button_unchanged(s0, s1)
    } else {
        let score = now - s0.spec_last_press();
        &&& r == Ok::<PressOutcome, Error>(PressOutcome::Pressed)
        &&& s1.spec_presses() == s0.spec_presses().push((caller, score as u32))
        &&& s1.spec_last_presser() == Some(caller)
        &&& s1.spec_last_press() == now
        &&& s1.spec_total_scores() == s0.spec_total_scores() + score
        &&& s1.spec_deadline() == now + BUTTON_LIFETIME
        &&& !s1.spec_is_dead()
        &&& s1.spec_button_token() == s0.spec_button_token()
    }
}

/// A participant's payout: their score divided by the score total —
/// integer division, so anyone short of the whole total gets nothing —
/// times the balance left after the last presser's half.
pub open spec fn participant_reward(score: u32, total: u32, remaining: int) -> int {
    (score as int / total as int) * remaining
}

/// The payout schedule `death` lays out: first half the balance to the last
/// presser, if there was one, then each participant's share in press order.
pub open spec fn death_payouts_post(
    s: TheButton,
    total_balance: u128,
    r: Seq<(AccountId, u128)>,
) -> bool {
    let pressiah_reward = total_balance / 2;
    let remaining = total_balance - pressiah_reward;
    let lead: int = if s.spec_last_presser() is Some {
        1int
    } else {
        0int
    };
    &&& r.len() == lead + s.spec_presses().len()
    &&& s.spec_last_presser() matches Some(p) ==> r[0] == (p, pressiah_reward)
    &&& forall|i: int|
        0 <= i < s.spec_presses().len() ==> #[trigger] r[lead + i] == (
        s.spec_presses()[i].0,
        participant_reward(s.spec_presses()[i].1, s.spec_total_scores(), remaining) as u128,
    )
}

} // verus!
