use thingy::diary::{
    ordered_entries, quantity_text, row_of, rows_of, table_view, Entry, Response, ServingSize,
    TableView,
};

fn entry(description: &str) -> Entry {
    Entry {
        description: description.to_string(),
        serving_size: None,
        time_eaten: format!("t-{}", description),
        image_url: None,
    }
}

fn response(id: &str, names: &[&str]) -> Response {
    Response { id: id.to_string(), entries: names.iter().map(|n| entry(n)).collect() }
}

fn descriptions(entries: &[Entry]) -> Vec<String> {
    entries.iter().map(|e| e.description.clone()).collect()
}

#[test]
fn entries_reversed_within_each_document_in_fetch_order() {
    let docs = vec![response("b", &["b1", "b2", "b3"]), response("a", &["a1", "a2"])];
    let out = ordered_entries(docs);
    assert_eq!(descriptions(&out), vec!["b3", "b2", "b1", "a2", "a1"]);
}

#[test]
fn empty_documents_contribute_nothing() {
    let docs = vec![response("c", &[]), response("b", &["b1"]), response("a", &[])];
    let out = ordered_entries(docs);
    assert_eq!(descriptions(&out), vec!["b1"]);
}

#[test]
fn zero_documents_give_zero_rows() {
    match table_view(Some(Ok(vec![]))) {
        TableView::Rows(rows) => assert_eq!(rows.len(), 0),
        _ => panic!("expected rows"),
    }
}

#[test]
fn failure_gives_error_state() {
    match table_view(Some(Err("Deserialization(\"bad\")".to_string()))) {
        TableView::Failed(m) => assert_eq!(m, "Error! Deserialization(\"bad\")"),
        _ => panic!("expected an error state"),
    }
}

#[test]
fn unanswered_query_is_loading() {
    assert!(matches!(table_view(None), TableView::Loading));
}

#[test]
fn table_rows_follow_listing_order() {
    let docs = vec![response("b", &["b1", "b2"]), response("a", &["a1"])];
    match table_view(Some(Ok(docs))) {
        TableView::Rows(rows) => {
            let names: Vec<String> = rows.iter().map(|r| r.product_name.clone()).collect();
            assert_eq!(names, vec!["b2", "b1", "a1"]);
            assert_eq!(rows[0].time_eaten, "t-b2");
            assert_eq!(rows[0].quantity, "0 ?");
        }
        _ => panic!("expected rows"),
    }
}

#[test]
fn missing_serving_size_gives_placeholder() {
    assert_eq!(quantity_text(&None), "0 ?");
}

#[test]
fn serving_size_gives_size_then_measure() {
    let s = Some(ServingSize { measure: "g".to_string(), size: "150".to_string() });
    assert_eq!(quantity_text(&s), "150 g");
}

#[test]
fn row_keeps_entry_fields() {
    let e = Entry {
        description: "Porridge".to_string(),
        serving_size: Some(ServingSize { measure: "bowl".to_string(), size: "1.5".to_string() }),
        time_eaten: "08:15".to_string(),
        image_url: Some("http://img/p.png".to_string()),
    };
    let r = row_of(e);
    assert_eq!(r.product_name, "Porridge");
    assert_eq!(r.time_eaten, "08:15");
    assert_eq!(r.quantity, "1.5 bowl");
    assert_eq!(r.image_url.as_deref(), Some("http://img/p.png"));
}

#[test]
fn rows_one_per_entry() {
    let rows = rows_of(vec![entry("x"), entry("y")]);
    assert_eq!(rows.len(), 2);
    assert_eq!(rows[1].product_name, "y");
}
