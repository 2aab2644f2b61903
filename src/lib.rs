//! Keeps a device connected behind a captive portal: classifies connectivity
//! probes, discovers the portal's login URL, and drives the reconnection
//! schedule as a state machine whose actions a driver performs.
pub mod classify;
pub mod invoke;
pub mod portal;
pub mod reconnect;
pub mod resolve;
pub mod text;
