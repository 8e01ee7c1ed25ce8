//! Actor-runtime message boxes for an IoT edge agent.
//!
//! Actors communicate exclusively through typed, bounded FIFO channels.
//! Every actor owns one message box: the box pairs an input receiver and an
//! out-of-band control receiver with an output sender, and higher-level boxes
//! add request/response correlation and admission-controlled concurrency.
//! The channel fabric, the boxes and the message payload types are verified;
//! the asynchronous runtime that drives them lives outside this crate.

pub mod health;
pub mod log_manager;
pub mod message_boxes;
pub mod messages;
pub mod mqtt;
pub mod queue;
pub mod restart;
pub mod settings;
pub mod software;
pub mod text;
