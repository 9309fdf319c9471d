//! Admission control for new members of a group channel.
//!
//! A new member is muted and sent a challenge; an acknowledgment within the
//! waiting time admits them, and otherwise they are expelled. `registry`
//! keeps the outstanding challenges, `coordinator` decides what each event asks
//! the platform to do, and `laws` states and proves how the two resolution
//! paths of a challenge relate.

pub mod coordinator;
pub mod laws;
pub mod registry;
