//! Zaps: Lightning payments tied to a post on a relay network.
//!
//! A zap takes five steps, each of which needs the one before it: find the post,
//! find its author's lightning address, ask the payment service behind that address
//! whether it takes zaps, get an invoice for a signed zap request, and have the
//! Lightning node pay it; then look for the receipt. This crate holds the rules of
//! those steps and proves what it states of them. It performs none of the outside
//! work itself: a [`pipeline::Pipeline`] names one [`pipeline::Action`] at a time,
//! and whoever drives it carries the action out and answers with a
//! [`pipeline::Reply`].
//!
//! * [`address`]: lightning addresses and their discovery URLs.
//! * [`lnurl`]: the payment service's two answers, and the URL that asks for an
//!   invoice.
//! * [`relay`]: events, the questions put to the relays, and what is read out of
//!   the answers.
//! * [`intent`]: the zap request and its signing.
//! * [`node`]: where the Lightning node is reached.
//! * [`pipeline`]: the run, step by step.
//! * [`run`]: what holds of every run.
//! * [`escape`], [`text`]: percent-encoding and plain text helpers.
//! * [`config`], [`error`]: the operator's settings, and what can go wrong.

pub mod address;
pub mod config;
pub mod error;
pub mod escape;
pub mod intent;
pub mod lnurl;
pub mod node;
pub mod pipeline;
pub mod relay;
pub mod run;
pub mod text;
