//! PIN protection: format rules, bcrypt-hashed storage, and a lockout after
//! repeated failures that survives restarts.

pub mod config;
pub mod lockout;

pub use config::{LockoutState, PinStore};
pub use lockout::{
    lockout_remaining_at, validate_pin_format, PinManager, PinState, LOCKOUT_DURATION, MAX_ATTEMPTS,
};
