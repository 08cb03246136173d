use vstd::prelude::*;

use bson::ordered::OrderedDocument;

verus! {

#[verifier::external_type_specification]
#[verifier::external_body]
pub struct ExOrderedDocument(OrderedDocument);

/// The keys of a BSON document, in insertion order.
pub uninterp spec fn doc_keys(d: OrderedDocument) -> Seq<Seq<char>>;

/// The document that `d` holds under `key`, if the value there is a document.
pub uninterp spec fn doc_subdocument(d: OrderedDocument, key: Seq<char>) -> Option<OrderedDocument>;

/// Relies on OrderedDocument::new: a document with no entries.
#[verifier::external_body]
pub(crate) fn empty_document() -> (r: OrderedDocument)
    ensures
        doc_keys(r) == Seq::<Seq<char>>::empty(),
        forall|k: Seq<char>| doc_subdocument(r, k) is None,
{
    OrderedDocument::new()
}

/// Relies on OrderedDocument::insert_bson, with the value wrapped by
/// `Bson::from`: a key not yet present is appended after the others and holds
/// the given document; the other entries stay as they were.
#[verifier::external_body]
pub(crate) fn insert_subdocument(d: &mut OrderedDocument, key: String, value: OrderedDocument)
    requires
        !doc_keys(*old(d)).contains(key@),
    ensures
        doc_keys(*final(d)) == doc_keys(*old(d)).push(key@),
        doc_subdocument(*final(d), key@) == Some(value),
        forall|k: Seq<char>| k != key@ ==> doc_subdocument(*final(d), k) == doc_subdocument(*old(d), k),
{
    d.insert_bson(key, bson::Bson::from(value));
}

/// Relies on the derived `Clone` of OrderedDocument: the copy holds the same
/// entries in the same order.
pub assume_specification[ <OrderedDocument as Clone>::clone ](d: &OrderedDocument) -> (r: OrderedDocument)
    ensures
        r == *d,
;

} // verus!
