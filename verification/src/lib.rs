//! Driver core for a fan/LED/button add-on board reached over raw digital
//! lines: the bit-exact serial protocol that feeds the addressable RGB LED,
//! the debounce state machine that turns raw button levels into events, and
//! the board's line configuration. All pin-level I/O is left to a thin
//! unverified shell that executes the write sequences computed here.

pub mod button;
pub mod device;
pub mod led;
pub mod wire;
