use vstd::prelude::*;

use mongodb::coll::options::IndexModel;

verus! {

#[verifier::external_type_specification]
#[verifier::external_body]
pub struct ExIndexModel(IndexModel);

/// The index declarations of a model type, in the order they are to be
/// synchronised before any migration of its collection runs.
pub struct Indexes(pub Vec<IndexModel>);

} // verus!
