//! The decision core of a minimal init process: signal rewriting, one-shot
//! ignore flags, dispatch of received signals and reaping of descendants.
//!
//! Nothing here touches the operating system. The program around this
//! library blocks and waits for signals, forks, polls for exited children and
//! delivers signals; every decision about what to do next is taken here, on
//! plain values, and is proved against the models in each module.

pub mod signal;
pub mod numeral;
pub mod rule;
pub mod rewrite;
pub mod cli;
pub mod config;
pub mod ignore;
pub mod supervisor;
pub mod reaper;
pub mod launch;
