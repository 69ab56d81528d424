//! A chat-driven operator interface for account provisioning on a host.
//!
//! The crate holds the session pipeline of the bot: decoding inbound events,
//! classifying them, parsing commands, planning their dispatch, and keeping a
//! monotone watermark over processed messages, together with the decision
//! logic of the account-provisioning actions. All network, process and file
//! work is performed by a thin driver around this library; the functions here
//! compute what that driver must do next.

pub mod command;
pub mod events;
pub mod handler;
pub mod help;
pub mod json;
pub mod linux_user_manage;
pub mod runtime_error;
pub mod slack;
pub mod strings;
pub mod timestamp;
