use vstd::prelude::*;

verus! {

/// Why a prompt was issued: a push to a branch (whose id may be unknown), or a
/// fetch described by free text. Exactly one variant is populated, and its
/// wire form holds the fields of that variant alone.
#[derive(Debug, Clone, PartialEq, Eq)]
pub enum Context {
    Push { branch_id: Option<String> },
    Fetch { action: String },
}

/// What is handed to the renderer when a prompt is submitted.
#[derive(Debug, Clone)]
pub struct PromptEvent<C> {
    pub id: u64,
    pub prompt: String,
    pub context: C,
}

} // verus!
