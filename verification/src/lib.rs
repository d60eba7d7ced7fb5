//! Transactional command-handling core of a small presence-and-chat backend.
//!
//! Clients connect under a stable actor identity, set a display name, move
//! around a 2D space, post text messages, react to messages with a fixed
//! emoji set, and receive one-off and recurring system-generated broadcast
//! messages. The durable storage engine, the session layer that supplies
//! actor identities and timestamps, and the timer that re-invokes scheduled
//! commands are external collaborators: this crate holds the state those
//! collaborators keep, as [`state::ChatState`], and every command as a
//! verified transition on it.

pub mod message;
pub mod models;
pub mod scheduler;
pub mod state;
pub mod user;

pub use message::send_message;
pub use models::{Message, User};
pub use scheduler::init;
pub use state::ChatState;
pub use user::set_name;
