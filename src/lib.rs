//! Correlation of externally answered prompts with the operations that asked
//! for them, the decisions of a two-source event dispatcher, and the layout
//! of the branch listing.
//!
//! The waiting itself (locks, awaits, task spawning) is left to the host: the
//! types here hold the bookkeeping and decide what happens next, and every
//! decision is stated and proved.
pub mod branches;
pub mod broker;
pub mod context;
pub mod dispatcher;

pub use branches::{BranchListing, Branches, Color, FileListing, Line};
pub use broker::{AskpassRequest, PendingRequests, Resolution};
pub use context::{Context, PromptEvent};
pub use dispatcher::{Action, Lifecycle, MergeLoop, Phase, Source, Startup, Step, Wake};
