//! Verified core of a Tracim workspace synchronizer: the content and remote
//! event vocabularies, the retry discipline used to apply a batch of
//! changes, and the decisions of the operational and supervision loops.

pub mod operate;
pub mod runner;
pub mod types;
