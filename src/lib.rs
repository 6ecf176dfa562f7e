//! Territory-ownership mirror for a game world: the data model, the merge of
//! enrichment sources into a snapshot, the change classification between two
//! snapshots, the subscriber session protocol and the cache headers of the
//! snapshot endpoint.

pub mod region;
pub mod resources;
pub mod guild;
pub mod names;
pub mod namemap;
pub mod territory;
pub mod snapshot;
pub mod diff;
pub mod merge;
pub mod store;
pub mod cadence;
pub mod poll;
pub mod cache;
pub mod session;
pub mod externals;
