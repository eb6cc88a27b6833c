//! Decision logic of an integration-test harness for datapacks: it resolves
//! which mod artifacts to fetch, plans how a disposable server instance is
//! staged, and classifies a finished server run from its exit status and log.

pub mod artifacts;
pub mod layout;
pub mod outcome;
pub mod packs;
pub mod pipeline;
pub mod provision;
pub mod text;
