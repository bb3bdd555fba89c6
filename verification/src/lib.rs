//! The time bank: every day credits 86,400 seconds that cannot be carried
//! over. This library computes, for an instant and a time zone, the local
//! date and time to display and the balance of seconds left until local
//! midnight, and it decides when a running clock publishes a new reading.

pub mod instant;
pub mod text;
pub mod timezone;
pub mod clock;
pub mod scheduler;
pub mod route;
