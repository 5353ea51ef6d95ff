//! Verified core of a menu-transition effect for a game.
//!
//! On a triggered change of the application's state, the surrounding engine
//! captures a screenshot of the current frame, loads a mask texture, and
//! renders a wipe effect between the captured frame and the new state before
//! removing the effect overlay again.  This crate holds the part of that
//! system that can be verified: the four-state transition state machine, the
//! overlay material it builds, and the countdown timer that decides when the
//! overlay is removed.  The engine-facing shell drives the machine once per
//! update cycle, handing it plain values (whether a primary window exists,
//! whether the captured frame has arrived, how far the mask asset has loaded,
//! how much time has passed) and carrying out the actions the machine returns
//! (begin a capture, spawn the overlay, commit the new application state,
//! despawn the overlay).

pub mod laws;
pub mod machine;
pub mod material;
pub mod state;
pub mod timer;
