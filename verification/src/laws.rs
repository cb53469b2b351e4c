use vstd::prelude::*;

use crate::switch::AccountId;
use crate::switch::LightSwitch;
use crate::switch::LightSwitchError;
use crate::switch::OwnableError;

verus! {

/// A successful `turn_on` followed by a successful `turn_off` returns the
/// state to exactly its pre-`turn_on` value: every configuration field is
/// unchanged, the switch is off again, and the caller is owed exactly
/// `off_payment`.
pub proof fn lemma_turn_on_then_turn_off_restores(
    s: LightSwitch,
    transferred_value: u128,
    on_timestamp: u64,
    balance: u128,
    off_timestamp: u64,
)
    requires
        s.wf(),
        !s.on,
        transferred_value == s.on_fee,
        balance >= s.off_payment,
        off_timestamp >= on_timestamp + s.minimum_on_time_in_seconds,
    ensures
        ({
            let (s1, r1) = s.turn_on_spec(transferred_value, on_timestamp);
            let (s2, r2) = s1.turn_off_spec(balance, off_timestamp);
            &&& r1 == Ok::<(), LightSwitchError>(())
            &&& r2 == Ok::<u128, LightSwitchError>(s.off_payment)
            &&& s2 == s
        }),
{
}

/// Calling `turn_on` twice in a row, without an intervening `turn_off`,
/// leaves the state unchanged by the second call, which reports
/// `LightAlreadyOn` — whatever payment and timestamp come with it. The one
/// family of inputs left out is a first call that itself failed on a wrong
/// fee while the switch was off: such a call changes nothing, so the second
/// call starts from the original off state.
pub proof fn lemma_turn_on_twice_fails(
    s: LightSwitch,
    first_value: u128,
    first_timestamp: u64,
    second_value: u128,
    second_timestamp: u64,
)
    requires
        s.wf(),
        s.on || first_value == s.on_fee,
    ensures
        ({
            let (s1, r1) = s.turn_on_spec(first_value, first_timestamp);
            s1.turn_on_spec(second_value, second_timestamp) == (
                s1,
                Err::<(), LightSwitchError>(LightSwitchError::LightAlreadyOn),
            )
        }),
{
}

/// Any caller other than the admin gets `CallerIsNotOwner` back from
/// `update_config`, and every field is left unchanged — whatever new values
/// the call supplied.
pub proof fn lemma_update_config_non_admin(
    s: LightSwitch,
    caller: AccountId,
    admin: Option<AccountId>,
    on_fee: Option<u128>,
    off_payment: Option<u128>,
    minimum_on_time_in_seconds: Option<u64>,
)
    requires
        caller != s.admin,
    ensures
        s.update_config_spec(caller, admin, on_fee, off_payment, minimum_on_time_in_seconds) == (
            s,
            Err::<(), OwnableError>(OwnableError::CallerIsNotOwner),
        ),
{
}

/// After the admin transfers admin rights to someone else, a further
/// `update_config` from the old admin fails with `CallerIsNotOwner` and
/// changes nothing — whatever fields that second call supplies.
pub proof fn lemma_old_admin_locked_out(
    s: LightSwitch,
    caller: AccountId,
    new_admin: AccountId,
    on_fee: Option<u128>,
    off_payment: Option<u128>,
    minimum_on_time_in_seconds: Option<u64>,
    second_admin: Option<AccountId>,
    second_on_fee: Option<u128>,
    second_off_payment: Option<u128>,
    second_minimum: Option<u64>,
)
    requires
        caller == s.admin,
        new_admin != caller,
    ensures
        ({
            let (s1, r1) = s.update_config_spec(
                caller,
                Some(new_admin),
                on_fee,
                off_payment,
                minimum_on_time_in_seconds,
            );
            &&& r1 == Ok::<(), OwnableError>(())
            &&& s1.update_config_spec(
                caller,
                second_admin,
                second_on_fee,
                second_off_payment,
                second_minimum,
            ) == (s1, Err::<(), OwnableError>(OwnableError::CallerIsNotOwner))
        }),
{
}

} // verus!
