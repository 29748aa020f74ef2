//! A PIN-protected screen lock that keeps the machine awake while locked.
//!
//! The library holds the decisions: PIN validation and verification, the
//! sleep-prevention lease, the lock-session state machine and the hotkey
//! daemon's event handling. Everything that talks to the operating system
//! is left to the caller, which performs the actions these types ask for.
pub mod auth;
pub mod lease;
pub mod session;
pub mod daemon;
