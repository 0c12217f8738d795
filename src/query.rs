//! The aggregation query that fetches the recent diary documents.
use vstd::prelude::*;

verus! {

/// How many of the most recent documents one query fetches.
pub const RECENT_DOCUMENTS: u64 = 6;

/// One stage of the aggregation pipeline.
#[derive(PartialEq, Eq, Structural)]
pub enum Stage {
    /// Sort by identifier, newest (greatest) first.
    SortByIdDescending,
    /// Keep at most this many documents.
    Limit(u64),
    /// Keep only the entries, taken from the document's data.
    ProjectEntries,
}

/// The stages of the diary query, in the order the database runs them.
pub open spec fn diary_stages() -> Seq<Stage> {
    seq![Stage::SortByIdDescending, Stage::Limit(RECENT_DOCUMENTS), Stage::ProjectEntries]
}

/// Builds the diary query: the most recent documents by identifier, with only
/// their entries kept.
pub fn diary_pipeline() -> (r: Vec<Stage>)
    ensures
        r@ == diary_stages(),
{
    let mut r: Vec<Stage> = Vec::new();
    r.push(Stage::SortByIdDescending);
    r.push(Stage::Limit(RECENT_DOCUMENTS));
    r.push(Stage::ProjectEntries);
    assert(r@ =~= diary_stages());
    r
}

/// The database that holds the diary.
pub fn database_name() -> (r: &'static str)
    ensures
        r@ == "calories"@,
{
    proof {
        reveal_strlit("calories");
    }
    "calories"
}

/// The collection that holds the diary documents.
pub fn collection_name() -> (r: &'static str)
    ensures
        r@ == "nutracheck_entries"@,
{
    proof {
        reveal_strlit("nutracheck_entries");
    }
    "nutracheck_entries"
}

} // verus!
