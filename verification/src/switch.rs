use vstd::prelude::*;

verus! {

/// The identity of an account on the hosting ledger, reduced to the one
/// capability this logic needs from it: comparison for equality.
#[derive(Clone, Copy, Debug, PartialEq, Eq, Structural)]
pub struct AccountId {
    pub id: u128,
}

/// The recoverable outcomes of `turn_on` and `turn_off`. All of them are
/// reported to the caller as ordinary result values; none aborts the call.
#[derive(Clone, Copy, Debug, PartialEq, Eq, Structural)]
pub enum LightSwitchError {
    LightAlreadyOff,
    LightAlreadyOn,
    IncorrectFee,
    InsufficientBalance,
    InsufficientTimePassed,
}

/// The access-control failure of the admin-gated configuration surface.
#[derive(Clone, Copy, Debug, PartialEq, Eq, Structural)]
pub enum OwnableError {
    CallerIsNotOwner,
}

/// A read-only snapshot of the switch state, as `config` hands it out.
#[derive(Clone, Copy, Debug, PartialEq, Eq)]
pub struct Config {
    pub on: bool,
    pub minimum_on_time_in_seconds: u64,
    pub on_time: Option<u64>,
    pub on_fee: u128,
    pub off_payment: u128,
    pub admin: AccountId,
}

/// The persistent state of the switch. One instance lives for the whole
/// deployment; the methods below are the only code paths meant to mutate it.
#[derive(Clone, Copy, Debug, PartialEq, Eq)]
pub struct LightSwitch {
    pub on: bool,
    pub minimum_on_time_in_seconds: u64,
    pub on_time: Option<u64>,
    pub on_fee: u128,
    pub off_payment: u128,
    pub admin: AccountId,
}

impl LightSwitch {
    /// The state invariant: the on-timestamp is recorded exactly while the
    /// switch is on. Established by `new` and preserved by every operation.
    pub open spec fn wf(self) -> bool {
        self.on_time.is_some() <==> self.on
    }

    /// What `turn_on` decides and changes, as a function of the state and of
    /// the ledger context it consults (the payment attached to the call and
    /// the current timestamp): the successor state and the reported outcome.
    pub open spec fn turn_on_spec(self, transferred_value: u128, block_timestamp: u64) -> (Self,
        Result<(), LightSwitchError>) {
        if self.on {
            (self, Err(LightSwitchError::LightAlreadyOn))
        } else if transferred_value != self.on_fee {
            (self, Err(LightSwitchError::IncorrectFee))
        } else {
            (LightSwitch { on: true, on_time: Some(block_timestamp), ..self }, Ok(()))
        }
    }

    /// What `turn_off` decides and changes, given the contract's balance and
    /// the current timestamp. On success the second component carries the
    /// amount owed to the caller.
    pub open spec fn turn_off_spec(self, balance: u128, block_timestamp: u64) -> (Self,
        Result<u128, LightSwitchError>) {
        if !self.on {
            (self, Err(LightSwitchError::LightAlreadyOff))
        } else if balance < self.off_payment {
            (self, Err(LightSwitchError::InsufficientBalance))
        } else if block_timestamp < self.on_time.unwrap() + self.minimum_on_time_in_seconds {
            (self, Err(LightSwitchError::InsufficientTimePassed))
        } else {
            (LightSwitch { on: false, on_time: None, ..self }, Ok(self.off_payment))
        }
    }

    /// What `update_config` decides and changes: only the admin may call it,
    /// and each supplied field overwrites the stored one while absent fields
    /// stay untouched. A failed access check changes nothing.
    pub open spec fn update_config_spec(
        self,
        caller: AccountId,
        admin: Option<AccountId>,
        on_fee: Option<u128>,
        off_payment: Option<u128>,
        minimum_on_time_in_seconds: Option<u64>,
    ) -> (Self, Result<(), OwnableError>) {
        if caller != self.admin {
            (self, Err(OwnableError::CallerIsNotOwner))
        } else {
            (
                LightSwitch {
                    admin: admin.unwrap_or(self.admin),
                    on_fee: on_fee.unwrap_or(self.on_fee),
                    off_payment: off_payment.unwrap_or(self.off_payment),
                    minimum_on_time_in_seconds: minimum_on_time_in_seconds.unwrap_or(
                        self.minimum_on_time_in_seconds,
                    ),
                    ..self
                },
                Ok(()),
            )
        }
    }

    /// Deploy a fresh switch: off, no on-timestamp, the given fees, and the
    /// deploying caller as admin.
    pub fn new(
        on_fee: u128,
        off_payment: u128,
        minimum_on_time_in_seconds: u64,
        caller: AccountId,
    ) -> (s: Self)
        ensures
            s == (LightSwitch {
                on: false,
                minimum_on_time_in_seconds,
                on_time: None,
                on_fee,
                off_payment,
                admin: caller,
            }),
            s.wf(),
    {
        LightSwitch {
            on: false,
            minimum_on_time_in_seconds,
            on_time: None,
            on_fee,
            off_payment,
            admin: caller,
        }
    }

    /// Turn the switch on. `transferred_value` is the payment attached to the
    /// call and `block_timestamp` the current time, both read from the ledger
    /// by the host; the attached payment simply accrues to the contract's
    /// balance, so no further action is owed on success.
    pub fn turn_on(&mut self, transferred_value: u128, block_timestamp: u64) -> (r: Result<
        (),
        LightSwitchError,
    >)
        requires
            old(self).wf(),
        ensures
            final(self).wf(),
            (*final(self), r) == old(self).turn_on_spec(transferred_value, block_timestamp),
    {
        if self.on {
            return Err(LightSwitchError::LightAlreadyOn);
        }
        if transferred_value != self.on_fee {
            return Err(LightSwitchError::IncorrectFee);
        }
        self.on_time = Some(block_timestamp);
        self.on = true;
        Ok(())
    }

    /// Turn the switch off. `balance` is the contract's current balance and
    /// `block_timestamp` the current time, both read from the ledger by the
    /// host. On success the result carries the payout owed to the caller,
    /// which the host must transfer; if that transfer cannot be completed the
    /// host must abort the whole call, discarding the state change, rather
    /// than keep the new state without the payout.
    pub fn turn_off(&mut self, balance: u128, block_timestamp: u64) -> (r: Result<
        u128,
        LightSwitchError,
    >)
        requires
            old(self).wf(),
        ensures
            final(self).wf(),
            (*final(self), r) == old(self).turn_off_spec(balance, block_timestamp),
    {
        if !self.on {
            return Err(LightSwitchError::LightAlreadyOff);
        }
        if balance < self.off_payment {
            return Err(LightSwitchError::InsufficientBalance);
        }
        let on_time: u64 = self.on_time.unwrap();
        if block_timestamp < on_time || block_timestamp - on_time
            < self.minimum_on_time_in_seconds {
            return Err(LightSwitchError::InsufficientTimePassed);
        }
        self.on_time = None;
        self.on = false;
        Ok(self.off_payment)
    }

    /// A snapshot of every field, readable by anyone, with no side effect.
    pub fn config(&self) -> (c: Config)
        ensures
            c.on == self.on,
            c.minimum_on_time_in_seconds == self.minimum_on_time_in_seconds,
            c.on_time == self.on_time,
            c.on_fee == self.on_fee,
            c.off_payment == self.off_payment,
            c.admin == self.admin,
    {
        Config {
            admin: self.admin,
            on: self.on,
            minimum_on_time_in_seconds: self.minimum_on_time_in_seconds,
            on_time: self.on_time,
            on_fee: self.on_fee,
            off_payment: self.off_payment,
        }
    }

    /// Update the configuration. `caller` is the calling identity read from
    /// the ledger by the host; only the current admin gets past the access
    /// check, and the admin transfer is applied before the other fields.
    pub fn update_config(
        &mut self,
        caller: AccountId,
        admin: Option<AccountId>,
        on_fee: Option<u128>,
        off_payment: Option<u128>,
        minimum_on_time_in_seconds: Option<u64>,
    ) -> (r: Result<(), OwnableError>)
        requires
            old(self).wf(),
        ensures
            final(self).wf(),
            (*final(self), r) == old(self).update_config_spec(
                caller,
                admin,
                on_fee,
                off_payment,
                minimum_on_time_in_seconds,
            ),
    {
        if caller != self.admin {
            return Err(OwnableError::CallerIsNotOwner);
        }
        if admin.is_some() {
            self.admin = admin.unwrap();
        }
        if on_fee.is_some() {
            self.on_fee = on_fee.unwrap();
        }
        if off_payment.is_some() {
            self.off_payment = off_payment.unwrap();
        }
        if minimum_on_time_in_seconds.is_some() {
            self.minimum_on_time_in_seconds = minimum_on_time_in_seconds.unwrap();
        }
        Ok(())
    }
}

} // verus!
