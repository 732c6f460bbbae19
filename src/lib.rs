//! Subscription feeds for a terminal video browser: the channel model and
//! the merge of refreshed feeds, the supervisor of an external command, the
//! page state machine, and the readers and formatters they share.

pub mod accumulators;
pub mod channel;
pub mod error;
pub mod finder;
pub mod input;
pub mod pages;
pub mod progress;
pub mod refresh;
pub mod search;
pub mod state;
pub mod supervisor;
pub mod text;
pub mod time;
pub mod video;
pub mod view;
