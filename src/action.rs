//! Actions as the validation rules see them: who wrote them, where they sit,
//! and what they did.
use vstd::prelude::*;
use crate::hash::{ActionHash, AgentPubKey, AnyLinkableHash};

verus! {

/// The identity of an application entry type on the wire: the index of the
/// integrity zome that defines it and the type's index within that zome.
#[derive(Clone, Copy, Debug)]
pub struct AppEntryDef {
    pub entry_index: u8,
    pub zome_index: u8,
    pub public: bool,
}

/// What an action did.
#[derive(Clone, Copy, Debug)]
pub enum ActionContent {
    /// Created an entry; `None` for entries that are not application entries.
    Create { entry_type: Option<AppEntryDef> },
    /// Created an entry as a new revision of an earlier one.
    Update { entry_type: Option<AppEntryDef>, original_action_address: ActionHash },
    /// Marked the record at `deletes_address` as deleted.
    Delete { deletes_address: ActionHash },
    /// Created a link of type `link_type` of the zome `zome_index`.
    CreateLink {
        base_address: AnyLinkableHash,
        target_address: AnyLinkableHash,
        zome_index: u8,
        link_type: u8,
    },
    /// Deleted the link created by the action `link_add_address`.
    DeleteLink { link_add_address: ActionHash, base_address: AnyLinkableHash },
    /// The package an agent presents when it joins the network.
    AgentValidationPkg,
    /// Any other system action (genesis, chain open and close, and so on).
    Other,
}

/// An action of some agent's source chain.
#[derive(Clone, Copy, Debug)]
pub struct Action {
    pub hash: ActionHash,
    pub author: AgentPubKey,
    /// Microseconds since the Unix epoch.
    pub timestamp: i64,
    pub content: ActionContent,
}

/// The application entry type that an action created, if any.
pub open spec fn spec_app_entry_type(c: ActionContent) -> Option<AppEntryDef> {
    match c {
        ActionContent::Create { entry_type } => entry_type,
        ActionContent::Update { entry_type, .. } => entry_type,
        _ => None,
    }
}

impl ActionContent {
    /// Whether this action created an entry.
    pub open spec fn spec_creates_entry(self) -> bool {
        self is Create || self is Update
    }

    /// The application entry type that this action created, if any.
    pub fn app_entry_type(&self) -> (r: Option<AppEntryDef>)
        ensures
            r == spec_app_entry_type(*self),
    {
        match self {
            ActionContent::Create { entry_type } => *entry_type,
            ActionContent::Update { entry_type, .. } => *entry_type,
            _ => None,
        }
    }

    /// Whether this action created an entry.
    pub fn is_entry_creation(&self) -> (r: bool)
        ensures
            r == self.spec_creates_entry(),
    {
        match self {
            ActionContent::Create { .. } => true,
            ActionContent::Update { .. } => true,
            _ => false,
        }
    }
}

} // verus!
