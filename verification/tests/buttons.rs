use aleph_core::button;
use aleph_core::contract_env::{AccountId, EnvError};
use aleph_core::yellow_button;

fn account(b: u8) -> AccountId {
    AccountId([b; 32])
}

#[test]
fn press_at_or_before_deadline_ends_the_game() {
    let token = account(0);
    let mut the_button = button::TheButton::new(0, token);
    let alice = account(1);
    assert_eq!(the_button.press(100, alice), Ok(button::PressOutcome::Death));
    // nobody pressed: the payout schedule is empty
    assert_eq!(the_button.death(1000), Vec::new());
    // once dead, every further press is rejected
    assert_eq!(the_button.press(100, alice), Err(button::Error::AfterDeadline));
}

#[test]
fn press_after_deadline_is_recorded_once_per_account() {
    let token = account(0);
    let mut the_button = button::TheButton::new(0, token);
    let alice = account(1);
    assert_eq!(
        the_button.press(604801, alice),
        Ok(button::PressOutcome::Pressed)
    );
    // the deadline started over; only once it lapses does the check on the
    // returning participant fire
    assert_eq!(
        the_button.press(1209602 + 604800, alice),
        Err(button::Error::AlreadyParticipated)
    );
}

#[test]
fn sole_participant_takes_both_rewards() {
    let token = account(0);
    let mut the_button = button::TheButton::new(0, token);
    let alice = account(1);
    assert_eq!(
        the_button.press(604801, alice),
        Ok(button::PressOutcome::Pressed)
    );
    // alice's score is the whole total, so she gets the second half too
    assert_eq!(the_button.death(1000), vec![(alice, 500), (alice, 500)]);
}

#[test]
fn integer_shares_round_down_to_nothing() {
    let token = account(0);
    let mut the_button = button::TheButton::new(0, token);
    let alice = account(1);
    let bob = account(2);
    assert_eq!(
        the_button.press(604801, alice),
        Ok(button::PressOutcome::Pressed)
    );
    assert_eq!(
        the_button.press(1209602, bob),
        Ok(button::PressOutcome::Pressed)
    );
    // the last presser takes half; each score is below the total, so the
    // integer share formula gives both participants nothing
    assert_eq!(
        the_button.death(1001),
        vec![(bob, 500), (alice, 0), (bob, 0)]
    );
}

#[test]
fn env_errors_become_contract_call_errors() {
    assert_eq!(
        button::Error::from_env_error(&EnvError::Decode),
        button::Error::ContractCallError(
            "Contract call failed due to Decode error".to_string()
        )
    );
    assert_eq!(
        button::Error::from_env_error(&EnvError::TransferFailed),
        button::Error::ContractCallError(
            "Contract call failed due to TransferFailed error".to_string()
        )
    );
    assert_eq!(
        yellow_button::Error::from_env_error(&EnvError::CalleeTrapped),
        yellow_button::Error::ContractCall(
            "Contract call failed due to CalleeTrapped error".to_string()
        )
    );
}

#[test]
fn yellow_button_admits_only_whitelisted_players() {
    let token = account(0);
    let mut the_button = yellow_button::YellowButton::new(0, token);
    let alice = account(1);
    assert_eq!(
        the_button.press(604801, alice),
        Err(yellow_button::Error::NotWhitelisted)
    );
    assert_eq!(the_button.allow(alice), Ok(()));
    assert_eq!(
        the_button.press(604801, alice),
        Ok(yellow_button::PressOutcome::Pressed(yellow_button::ButtonPressed {
            from: alice,
            when: 604801,
        }))
    );
}

#[test]
fn yellow_button_disallow_revokes_access() {
    let token = account(0);
    let mut the_button = yellow_button::YellowButton::new(0, token);
    let bob = account(2);
    assert_eq!(the_button.allow(bob), Ok(()));
    assert_eq!(the_button.disallow(bob), Ok(()));
    assert_eq!(
        the_button.press(604801, bob),
        Err(yellow_button::Error::NotWhitelisted)
    );
}

#[test]
fn yellow_button_game_ends_like_the_plain_one() {
    let token = account(0);
    let mut the_button = yellow_button::YellowButton::new(0, token);
    let alice = account(1);
    assert_eq!(
        the_button.press(100, alice),
        Ok(yellow_button::PressOutcome::Death)
    );
    assert_eq!(the_button.death(1000), Vec::new());
    assert_eq!(
        the_button.press(100, alice),
        Err(yellow_button::Error::AfterDeadline)
    );
}

#[test]
fn yellow_button_rejects_returning_participants() {
    let token = account(0);
    let mut the_button = yellow_button::YellowButton::new(0, token);
    let alice = account(1);
    assert_eq!(the_button.allow(alice), Ok(()));
    assert_eq!(
        the_button.press(604801, alice),
        Ok(yellow_button::PressOutcome::Pressed(yellow_button::ButtonPressed {
            from: alice,
            when: 604801,
        }))
    );
    assert_eq!(
        the_button.press(1209602 + 604800, alice),
        Err(yellow_button::Error::AlreadyParticipated)
    );
}
