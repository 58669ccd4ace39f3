//! Account provisioning engine for SFTP-only hosts.
//!
//! The engine decides; it never touches the machine itself. Every operation is a [`Session`]:
//! it hands its caller one [`Action`] at a time (look an account up, run a tool, read the next
//! line of the directive file), and the caller hands back the [`Event`] that tells how that
//! went. What a session asks for, in which order, and how it ends is stated in the contracts
//! of the module [`engine`], over the spec functions of the module [`model`]; the module
//! [`laws`] proves what holds of every session.

pub mod account;
pub mod command;
pub mod directive;
pub mod engine;
pub mod error;
pub mod laws;
pub mod model;
pub mod session;
pub mod text;

pub use account::{
    AccountDirective, AccountIdentity, AccountMutationRequest, PartialAccountIdentity,
};
pub use command::{ExecutionOutcome, Invocation, ServiceCommand, Tool};
pub use directive::{load, parse_directive, read_line};
pub use engine::{
    apply, control, sftp_create_user, sftp_delete_user, sftp_entry, sftp_modify_user,
    sftp_restart, sftp_start, sftp_stop, verdict,
};
pub use error::{Error, ErrorKind};
pub use session::{Action, Event, Notice, Session, Transition};
