//! The virtual-field management model.

use vstd::prelude::*;

verus! {

/// A stored virtual field.
#[derive(Debug, Clone)]
pub struct VirtualField {
    /// The unique id of the virtual field.
    pub id: String,
    /// The dataset the virtual field belongs to.
    pub dataset: String,
    /// The name of the virtual field.
    pub name: String,
    /// The description of the virtual field.
    pub description: String,
    /// The expression that computes the value.
    pub expression: String,
}

/// The request to create or update a virtual field.
#[derive(Debug, Clone)]
pub struct VirtualFieldCreateUpdateRequest {
    /// The dataset the virtual field belongs to.
    pub dataset: String,
    /// The name of the virtual field.
    pub name: String,
    /// The description of the virtual field.
    pub description: String,
    /// The expression that computes the value.
    pub expression: String,
}

/// The options for listing virtual fields.
#[derive(Debug, Clone)]
pub struct ListOptions {
    /// The dataset to list for.
    pub dataset: String,
    /// The largest number of results returned.
    pub limit: Option<u32>,
    /// The offset of the first result returned.
    pub offset: Option<u32>,
}

impl Default for ListOptions {
    /// No dataset, no limit, no offset.
    fn default() -> (r: Self)
        ensures
            r.dataset@ == Seq::<char>::empty(),
            r.limit is None,
            r.offset is None,
    {
        ListOptions { dataset: String::new(), limit: None, offset: None }
    }
}

} // verus!
