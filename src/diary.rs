//! Diary documents and entries, and the order in which the table lists them.
use vstd::prelude::*;
use vstd::string::StringExecFns;

verus! {

/// How much of a food was eaten: a unit label and the amount, as the number
/// is written in the table.
pub struct ServingSize {
    pub measure: String,
    pub size: String,
}

/// One food-diary record.
pub struct Entry {
    pub description: String,
    pub serving_size: Option<ServingSize>,
    pub time_eaten: String,
    pub image_url: Option<String>,
}

/// One fetched diary document: its identifier and its entries, oldest first.
pub struct Response {
    pub id: String,
    pub entries: Vec<Entry>,
}

/// The amount shown when an entry carries no serving size.
pub open spec fn placeholder_quantity() -> Seq<char> {
    "0 ?"@
}

/// The text of the quantity column for an entry's serving size.
pub open spec fn quantity_of(serving: Option<ServingSize>) -> Seq<char> {
    match serving {
        Some(s) => s.size@ + " "@ + s.measure@,
        None => placeholder_quantity(),
    }
}

/// The entries of the given documents in the order the table lists them:
/// documents in the order they were fetched, each one's entries newest first.
pub open spec fn entry_order(docs: Seq<Response>) -> Seq<Entry>
    decreases docs.len(),
{
    if docs.len() == 0 {
        Seq::empty()
    } else {
        entry_order(docs.drop_last()) + docs.last().entries@.reverse()
    }
}

/// Renders the quantity column: "<size> <measure>", or a placeholder when the
/// serving size is missing.
pub fn quantity_text(serving: &Option<ServingSize>) -> (r: String)
    ensures
        r@ == quantity_of(*serving),
{
    match serving {
        Some(s) => {
            let mut text = s.size.clone();
            text.append(" ");
            text.append(s.measure.as_str());
            text
        },
        None => String::from_str("0 ?"),
    }
}

/// Flattens the fetched documents into the order in which their entries are
/// listed: documents in fetch order, each document's entries reversed.
pub fn ordered_entries(docs: Vec<Response>) -> (r: Vec<Entry>)
    ensures
        r@ == entry_order(docs@),
{
    let ghost all = docs@;
    let mut rest = docs;
    let mut out: Vec<Entry> = Vec::new();
    let n = rest.len();
    let mut i: usize = 0;
    while i < n
        invariant
            n == all.len(),
            i <= n,
            rest@ == all.subrange(i as int, n as int),
            out@ == entry_order(all.take(i as int)),
        decreases n - i,
    {
        let doc = rest.remove(0);
        let ghost base = out@;
        let ghost es = doc.entries@;
        let mut entries = doc.entries;
        while entries.len() > 0
            invariant
                entries@ == es.take(entries@.len() as int),
                entries@.len() <= es.len(),
                out@ == base + es.reverse().take(es.len() - entries@.len()),
            decreases entries@.len(),
        {
            let e = entries.pop().unwrap();
            out.push(e);
            assert(out@ =~= base + es.reverse().take(es.len() - entries@.len()));
        }
        proof {
            assert(es.reverse().take(es.len() as int) =~= es.reverse());
            assert(all.take(i + 1).drop_last() =~= all.take(i as int));
            assert(all.take(i + 1).last() == all[i as int]);
        }
        i = i + 1;
    }
    assert(all.take(n as int) =~= all);
    out
}

/// What one table row shows.
pub struct RowData {
    pub image_url: Option<String>,
    pub time_eaten: String,
    pub product_name: String,
    pub quantity: String,
}

/// Whether a row shows an entry's fields, its quantity rendered.
pub open spec fn shows_entry(row: RowData, e: Entry) -> bool {
    &&& row.image_url == e.image_url
    &&& row.time_eaten@ == e.time_eaten@
    &&& row.product_name@ == e.description@
    &&& row.quantity@ == quantity_of(e.serving_size)
}

/// Whether the rows show the entries one for one, in the same order.
pub open spec fn shows_entries(rows: Seq<RowData>, entries: Seq<Entry>) -> bool {
    &&& rows.len() == entries.len()
    &&& forall|k: int| 0 <= k < rows.len() ==> shows_entry(#[trigger] rows[k], entries[k])
}

/// Turns one entry into the row that lists it.
pub fn row_of(e: Entry) -> (r: RowData)
    ensures
        shows_entry(r, e),
{
    let quantity = quantity_text(&e.serving_size);
    RowData {
        image_url: e.image_url,
        time_eaten: e.time_eaten,
        product_name: e.description,
        quantity,
    }
}

/// The three states in which the diary table is drawn.
pub enum TableView {
    /// The query has not answered yet.
    Loading,
    /// The query failed: the message is shown in place of the rows.
    Failed(String),
    /// The query answered: one row per entry.
    Rows(Vec<RowData>),
}

/// The text shown in place of the table when the query failed.
pub open spec fn error_message(detail: Seq<char>) -> Seq<char> {
    "Error! "@ + detail
}

/// Decides what the table shows for the state of the query: nothing fetched
/// yet, a failure (with its debug text), or the fetched documents.
pub fn table_view(fetched: Option<Result<Vec<Response>, String>>) -> (r: TableView)
    ensures
        table_view_of(fetched, r),
{
    match fetched {
        None => TableView::Loading,
        Some(Err(e)) => {
            let mut message = String::from_str("Error! ");
            message.append(e.as_str());
            TableView::Failed(message)
        },
        Some(Ok(docs)) => {
            let entries = ordered_entries(docs);
            TableView::Rows(rows_of(entries))
        },
    }
}

/// Turns the entries, in order, into the rows that list them.
pub fn rows_of(entries: Vec<Entry>) -> (r: Vec<RowData>)
    ensures
        shows_entries(r@, entries@),
{
    let ghost all = entries@;
    let mut rest = entries;
    let mut rows: Vec<RowData> = Vec::new();
    let n = rest.len();
    let mut i: usize = 0;
    while i < n
        invariant
            n == all.len(),
            i <= n,
            rest@ == all.subrange(i as int, n as int),
            rows@.len() == i,
            forall|k: int| 0 <= k < i ==> shows_entry(#[trigger] rows@[k], all[k]),
        decreases n - i,
    {
        let e = rest.remove(0);
        rows.push(row_of(e));
        i = i + 1;
    }
    rows
}

/// The listing of two runs of documents fetched one after the other is the
/// listing of the first run followed by that of the second: documents keep
/// their fetch order, and a document's entries are listed newest first, next
/// to each other.
pub proof fn listing_concatenates(a: Seq<Response>, b: Seq<Response>)
    ensures
        entry_order(a + b) == entry_order(a) + entry_order(b),
    decreases b.len(),
{
    if b.len() == 0 {
        assert(a + b =~= a);
        assert(entry_order(b) =~= Seq::<Entry>::empty());
        assert(entry_order(a) + entry_order(b) =~= entry_order(a));
    } else {
        listing_concatenates(a, b.drop_last());
        assert((a + b).drop_last() =~= a + b.drop_last());
        assert((a + b).last() == b.last());
        assert(entry_order(a + b) =~= entry_order(a) + entry_order(b));
    }
}

/// With no document fetched, the table lists no row.
pub proof fn no_documents_no_rows(rows: Seq<RowData>)
    requires
        shows_entries(rows, entry_order(Seq::<Response>::empty())),
    ensures
        rows.len() == 0,
{
}

/// A failed query is shown as its message and never as rows.
pub proof fn failure_shows_no_rows(fetched: Option<Result<Vec<Response>, String>>, r: TableView)
    requires
        fetched is Some && fetched->0 is Err,
        table_view_of(fetched, r),
    ensures
        r is Failed,
        !(r is Rows),
{
}

/// What `table_view` is allowed to return for a state of the query.
pub open spec fn table_view_of(fetched: Option<Result<Vec<Response>, String>>, r: TableView) -> bool {
    &&& fetched is None <==> r is Loading
    &&& fetched matches Some(Err(e)) ==> (r matches TableView::Failed(m) && m@ == error_message(e@))
    &&& fetched matches Some(Ok(docs)) ==> (r matches TableView::Rows(rows) && shows_entries(rows@, entry_order(docs@)))
}

} // verus!
