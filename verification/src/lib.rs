//! A question-and-answer service core: a closed error taxonomy, a recovery
//! mapper that turns every failure into a wire-level status and message, an
//! in-process persistence store for questions and answers, pagination-window
//! extraction from query parameters, and the retry policy of a moderation
//! client that calls a remote text-classification dependency.

pub mod account;
pub mod answer;
pub mod digits;
pub mod error;
pub mod moderation;
pub mod pagination;
pub mod question;
pub mod recovery;
pub mod store;
