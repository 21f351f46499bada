//! Bookkeeping and flow control for a live gravitational simulation whose
//! integrator and renderer live elsewhere.

pub mod body;
pub mod channel;
pub mod clock;
pub mod color;
pub mod coloruniverse;
pub mod flow;
pub mod fpsinfo;
pub mod keys;
pub mod path;
pub mod sharedstate;
pub mod trail;
pub mod ui;
pub mod updater;
