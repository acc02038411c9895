//! The dispatch core of a chat-bot framework, as a sequential model with
//! machine-checked contracts.
//!
//! - [`handler`], [`evaluation`] and [`requirements`]: the handler tree, the
//!   evaluation of a tree for one update, and the check that every node
//!   finds the dependencies that it reads.
//! - [`dependencies`]: the container of the dependencies.
//! - [`dispatcher`]: what the main loop decides, turn by turn.
//! - [`shutdown_state`] and [`shutdown_token`]: the handshake by which a
//!   running dispatcher is asked to stop.
//! - [`dialogue`]: the state of each conversation, and the store behind it.
//! - [`update`], [`timeout`], [`repl`], [`notifier`]: what the above read
//!   and use.
//!
//! Everything here is a plain value that one owner drives. Sharing between
//! tasks, and every await, belongs to the caller.

pub mod dependencies;
pub mod dialogue;
pub mod dispatcher;
pub mod evaluation;
pub mod handler;
pub mod notifier;
pub mod repl;
pub mod requirements;
pub mod shutdown_state;
pub mod shutdown_token;
pub mod timeout;
pub mod update;
