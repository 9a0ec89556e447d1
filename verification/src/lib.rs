//! Switching a process's effective identity between root and the invoking
//! user, and running commands and file accesses under a chosen identity.
//!
//! A [`Session`] is the single handle through which the identity is switched.
//! It records the real and the effective identity of the process and the
//! policy on the elevation helper. Every operation that switches identity
//! borrows the session mutably for its whole span, switch and restore
//! included, so two such spans cannot interleave on one session.
//!
//! The library itself launches no program and opens no file: the caller hands
//! in the functions that do, and the library decides when they run, under
//! which identity, and what becomes of their results.
//!
//! A session also keeps a history of the requests it made of the operating
//! system and of the runs of the caller's functions. It costs nothing at
//! run time: it is there so that the contracts can say in which order
//! things happen.

pub mod command;
pub mod error;
pub mod file;
pub mod history;
pub mod identity;
pub mod invoker;
pub mod laws;
pub mod os;
pub mod outcome;
pub mod switch;

pub use error::{ConfigFault, Error, IoFault};
pub use invoker::{invoking_identity, parse_id, SudoEnv, SudoEnvView, SUDO_GID, SUDO_UID};
pub use identity::{allow_sudo, has_root, is_root, set_allow_sudo, Identity, Session, SessionState};
pub use history::{Event, SetId};
pub use switch::{change_root, change_user, elevate_step, lower_step, settle, switch_order, Step, SwitchFailure};
pub use command::{command, command_root, command_sudo, command_try, command_user, helper_invocation, invocation, launch, Invocation, InvocationView, Output, HELPER};
pub use outcome::{can_retry, root_route, Outcome, Route};
pub use file::{read, read_invocation, read_reply, read_root, read_sudo, read_try, read_user, write_invocation, write_reply, write_root, write_sudo, write_try, write_user};
