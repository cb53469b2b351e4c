//! A payment- and time-gated toggle switch ("light switch") driven by a host
//! ledger. The library holds the whole decision logic: turning the switch on
//! costs an exact fee, turning it off pays the caller and requires a minimum
//! on-duration, and a single admin may change the configuration. The host
//! (caller identity, attached payment, current timestamp, contract balance,
//! the payout transfer itself) stays outside; every operation takes the
//! ledger context it consults as plain arguments and returns the action to
//! perform.

mod laws;
mod switch;

pub use laws::lemma_old_admin_locked_out;
pub use laws::lemma_turn_on_then_turn_off_restores;
pub use laws::lemma_turn_on_twice_fails;
pub use laws::lemma_update_config_non_admin;
pub use switch::AccountId;
pub use switch::Config;
pub use switch::LightSwitch;
pub use switch::LightSwitchError;
pub use switch::OwnableError;
