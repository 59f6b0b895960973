//! The collection index: for each collection, how many of its tokens are
//! on sale.

use vstd::prelude::*;
use crate::state::{CollectionIndex, CollectionInfoModel, SimpleCollectionInfo};

verus! {

/// The model of a `CollectionIndex`.
pub struct CollectionIndexModel {
    pub collection_info: CollectionInfoModel,
    pub id: String,
    pub number_of_sell_offers: u32,
    pub date_created: Option<u64>,
}

impl View for CollectionIndex {
    type V = CollectionIndexModel;

    open spec fn view(&self) -> CollectionIndexModel {
        CollectionIndexModel {
            collection_info: self.collection_info@,
            id: self.id,
            number_of_sell_offers: self.number_of_sell_offers,
            date_created: self.date_created,
        }
    }
}

/// The index entry of a collection once one more of its tokens is listed:
/// the entry found with its count raised by one (staying at the largest
/// count), or a new entry with a count of one, created now.
pub open spec fn count_entry(
    found: Option<CollectionIndexModel>,
    collection_info: CollectionInfoModel,
    id: String,
    now: u64,
) -> CollectionIndexModel {
    match found {
        Some(ci) => CollectionIndexModel {
            number_of_sell_offers: if ci.number_of_sell_offers < u32::MAX {
                (ci.number_of_sell_offers + 1) as u32
            } else {
                u32::MAX
            },
            ..ci
        },
        None => CollectionIndexModel { collection_info, id, number_of_sell_offers: 1, date_created: Some(now) },
    }
}

/// `count_entry` on the entry found, if any.
pub open spec fn counted(
    found: Option<CollectionIndex>,
    collection_info: SimpleCollectionInfo,
    id: String,
    now: u64,
) -> CollectionIndexModel {
    count_entry(
        match found {
            Some(ci) => Some(ci@),
            None => None,
        },
        collection_info@,
        id,
        now,
    )
}

/// Counts a newly listed token of a collection.
///
/// `found` is the entry stored under the collection's id `id`.
pub fn count_sell_offer(
    found: Option<CollectionIndex>,
    collection_info: SimpleCollectionInfo,
    id: String,
    now: u64,
) -> (r: CollectionIndex)
    ensures
        r@ == counted(found, collection_info, id, now),
{
    match found {
        Some(mut ci) => {
            if ci.number_of_sell_offers < u32::MAX {
                ci.number_of_sell_offers = ci.number_of_sell_offers + 1;
            }
            ci
        },
        None => CollectionIndex {
            collection_info,
            id,
            number_of_sell_offers: 1,
            date_created: Some(now),
        },
    }
}

/// The index entry of a collection once one of its tokens leaves the
/// market: the count lowered by one, or no entry when none is left.
pub open spec fn uncount_entry(found: CollectionIndexModel) -> Option<CollectionIndexModel> {
    if found.number_of_sell_offers <= 1 {
        None
    } else {
        Some(
            CollectionIndexModel {
                number_of_sell_offers: (found.number_of_sell_offers - 1) as u32,
                ..found
            },
        )
    }
}

/// `uncount_entry` on the entry found.
pub open spec fn uncounted(found: CollectionIndex) -> Option<CollectionIndexModel> {
    uncount_entry(found@)
}

/// Uncounts a token of a collection that leaves the market.
pub fn uncount_sell_offer(found: CollectionIndex) -> (r: Option<CollectionIndex>)
    ensures
        match r {
            Some(ci) => uncounted(found) == Some(ci@),
            None => uncounted(found) is None,
        },
{
    let mut ci = found;
    if ci.number_of_sell_offers <= 1 {
        None
    } else {
        ci.number_of_sell_offers = ci.number_of_sell_offers - 1;
        Some(ci)
    }
}

/// Listing a token and then taking it off the market leaves a counted
/// collection's entry as it was.
pub proof fn law_uncount_undoes_count(
    found: CollectionIndex,
    collection_info: SimpleCollectionInfo,
    id: String,
    now: u64,
    counted_entry: CollectionIndex,
)
    requires
        found.number_of_sell_offers < u32::MAX,
        counted_entry@ == counted(Some(found), collection_info, id, now),
    ensures
        uncounted(counted_entry) == (if found.number_of_sell_offers == 0 {
            None
        } else {
            Some(found@)
        }),
{
}

} // verus!
