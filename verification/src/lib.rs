//! An Agent Client Protocol client for an editor, verified.
//!
//! The Agent Client Protocol is an open standard for editors to talk to coding
//! agents they run as subprocesses. Implementing the client side once makes an
//! editor work with every agent that speaks it, rather than with any one of them.
//!
//! This library decides; it does not act. It touches no process, no stream, no
//! thread and no window:
//!
//! - [`json`] and [`wire`] are the values that cross the connection and the lines
//!   they cross it in; [`protocol`] and [`decode`] are the protocol's types, how
//!   they are written and how they are read.
//! - [`client`] numbers requests, tells messages apart, answers what the agent
//!   asks, and says whom to wake.
//! - [`agent`] is a session as the editor sees it: the transcript, and what can
//!   happen to it. [`panel`] is what is shown of that.
//! - [`laws`] and [`agent_laws`] state what holds of all of this together. The other
//!   laws say what each call must give, in terms of what it was given:
//!   [`sending_laws`] of what is written, [`reading_laws`] and [`refusal_laws`] of
//!   what is read, [`receiving_laws`] and [`exchange_laws`] of what the client does
//!   about it, [`transcript_laws`] and [`panel_laws`] of the session and the panel,
//!   [`value_laws`] and [`view_laws`] of the values and their views.
#![allow(unused_imports)]

pub mod agent;
pub mod agent_laws;
pub mod client;
pub mod decode;
pub mod exchange_laws;
pub mod json;
pub mod laws;
pub mod panel;
pub mod panel_laws;
pub mod protocol;
pub mod reading_laws;
pub mod receiving_laws;
pub mod refusal_laws;
pub mod sending_laws;
pub mod text;
pub mod transcript_laws;
pub mod value_laws;
pub mod view_laws;
pub mod wire;
mod words;

pub use client::{AcpClient, AgentEvent, RpcErr};
pub use protocol::{
    ContentBlock, Implementation, InitializeResult, PlanEntry, SessionNotification, SessionUpdate,
    StopReason, ToolCall, ToolCallLocation, ToolCallStatus, ToolCallUpdate, ToolKind,
    PROTOCOL_VERSION,
};
