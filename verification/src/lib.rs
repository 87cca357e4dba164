//! Client-side driver for the widget API: a state machine that validates
//! requests coming from an embedded widget, enforces the negotiated
//! capability set, and produces strictly paired responses.

pub mod debug;
pub mod error;
pub mod filter;
pub mod incoming;
pub mod json;
pub mod messages;
pub mod outgoing;
pub mod permissions;
pub mod state;
pub mod text;
