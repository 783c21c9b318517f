use vstd::prelude::*;

verus! {

#[verifier::external_type_specification]
#[verifier::external_body]
pub struct ExDocument(mongodb::bson::Document);

#[verifier::external_type_specification]
#[verifier::external_body]
pub struct ExFindOptions(mongodb::options::FindOptions);

/// The sort order that find options carry (`None` when they leave it unset).
pub uninterp spec fn find_options_sort(o: mongodb::options::FindOptions) -> Option<
    mongodb::bson::Document,
>;

/// Whether find options leave every knob but the sort order unset (`None`).
pub uninterp spec fn find_options_only_sort(o: mongodb::options::FindOptions) -> bool;

/// Relies on mongodb's `FindOptions` builder: options that set the sort order
/// to `sort` and leave every other knob unset, as the builder defaults each
/// field to `None`.
#[verifier::external_body]
fn sort_find_options(sort: mongodb::bson::Document) -> (r: mongodb::options::FindOptions)
    ensures
        find_options_sort(r) == Some(sort),
        find_options_only_sort(r),
{
    mongodb::options::FindOptions::builder().sort(sort).build()
}

/// The options of a find: when a sort order is given, options that set it and
/// nothing else; none otherwise.
pub fn get_sort_find_option(sort_document_option: Option<mongodb::bson::Document>) -> (r: Option<
    mongodb::options::FindOptions,
>)
    ensures
        match sort_document_option {
            Some(d) => r is Some && find_options_sort(r->Some_0) == Some(d)
                && find_options_only_sort(r->Some_0),
            None => r is None,
        },
{
    match sort_document_option {
        Some(sort_document) => Some(sort_find_options(sort_document)),
        None => None,
    }
}

} // verus!
