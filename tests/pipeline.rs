use row_anchor::cell::{into_json_value, into_string, CellValue, FloatText, JsonScalar};
use row_anchor::chain::{calculate_hash, chain_input};
use row_anchor::cursor::{row_query, schema_query, RowCursor, FIRST_ROW_ID};
use row_anchor::decimal::{i64_text, u64_text};
use row_anchor::pipeline::{publish_path, App, Event, PipelineError, Stage, Step, POINTER_LIFETIME};
use row_anchor::record::{build_record, SchemaDrift};

fn bytes(s: &str) -> CellValue {
    CellValue::Bytes(s.as_bytes().to_vec())
}

fn text(j: JsonScalar) -> String {
    match j {
        JsonScalar::Text(s) => s,
        _ => panic!("expected a JSON string"),
    }
}

fn number(j: JsonScalar) -> String {
    match j {
        JsonScalar::Number(s) => s,
        _ => panic!("expected a JSON number"),
    }
}

fn columns(names: &[&str]) -> Vec<String> {
    names.iter().map(|s| s.to_string()).collect()
}

fn expect_store(step: Step) -> String {
    match step {
        Step::Store { document } => document,
        _ => panic!("expected a store step"),
    }
}

fn expect_stop(step: Step) -> PipelineError {
    match step {
        Step::Stop(e) => e,
        _ => panic!("expected a stop"),
    }
}

fn run_row(app: &mut App, values: Vec<CellValue>, anchor: &str, key: &str) -> (String, String) {
    match app.next_fetch() {
        Step::Fetch { .. } => {}
        _ => panic!("expected a fetch"),
    }
    let document = expect_store(app.handle(Event::Row(values)));
    match app.handle(Event::Stored(anchor.to_string())) {
        Step::Publish { path } => assert_eq!(path, format!("/ipfs/{}", anchor)),
        _ => panic!("expected a publish"),
    }
    match app.handle(Event::Published(key.to_string())) {
        Step::Report { key: k, anchor: a, digest } => {
            assert_eq!(k, key);
            assert_eq!(a, anchor);
            (document, digest)
        }
        _ => panic!("expected a report"),
    }
}

#[test]
fn decimal_texts() {
    assert_eq!(u64_text(0), "0");
    assert_eq!(u64_text(1234567890), "1234567890");
    assert_eq!(u64_text(u64::MAX), "18446744073709551615");
    assert_eq!(i64_text(-42), "-42");
    assert_eq!(i64_text(i64::MIN), "-9223372036854775808");
    assert_eq!(i64_text(i64::MAX), "9223372036854775807");
}

#[test]
fn canonical_bytes() {
    assert_eq!(into_string(&bytes("alice")), "alice");
    assert_eq!(text(into_json_value(&bytes("alice"))), "alice");
    let bad = CellValue::Bytes(vec![b'a', 0xff, b'b']);
    assert_eq!(into_string(&bad), "a\u{FFFD}b");
    assert_eq!(text(into_json_value(&bad)), "a\u{FFFD}b");
}

#[test]
fn canonical_floats() {
    let d = CellValue::Double(FloatText { text: "1.5".to_string(), json: "1.5".to_string() });
    assert_eq!(into_string(&d), "1.5");
    assert_eq!(number(into_json_value(&d)), "1.5");
    let f = CellValue::Float(FloatText { text: "-0.25".to_string(), json: "-0.25".to_string() });
    assert_eq!(into_string(&f), "-0.25");
    assert_eq!(number(into_json_value(&f)), "-0.25");
}

#[test]
fn canonical_integers() {
    assert_eq!(into_string(&CellValue::Int(-17)), "-17");
    assert_eq!(number(into_json_value(&CellValue::Int(-17))), "-17");
    assert_eq!(into_string(&CellValue::UInt(900)), "900");
    assert_eq!(number(into_json_value(&CellValue::UInt(900))), "900");
}

#[test]
fn canonical_null() {
    assert_eq!(into_string(&CellValue::Null), "null");
    assert!(matches!(into_json_value(&CellValue::Null), JsonScalar::Null));
}

#[test]
fn canonical_date() {
    let d = CellValue::Date(2023, 4, 5, 6, 7, 8, 9);
    assert_eq!(into_string(&d), "2023.4.5-6:7:8::9");
    assert_eq!(text(into_json_value(&d)), "2023.4.5-6:7:8::9");
}

#[test]
fn canonical_durations() {
    let pos = CellValue::Time(false, 2, 3, 4, 5, 6);
    assert_eq!(into_string(&pos), "2 3:4:5::6");
    assert_eq!(text(into_json_value(&pos)), "2 3:4:5::6");
    let neg = CellValue::Time(true, 2, 3, 4, 5, 6);
    assert_eq!(into_string(&neg), "2 -3:4:5::6");
    assert_eq!(text(into_json_value(&neg)), "2 -3:4:5::6");
}

#[test]
fn app_projections() {
    assert_eq!(App::into_string(&CellValue::UInt(7)), "7");
    assert_eq!(number(App::into_json_value(CellValue::Int(-7))), "-7");
}

#[test]
fn record_document_of_first_row() {
    let doc = App::wrap_to_json_string(
        columns(&["id", "name"]),
        vec![bytes("1"), bytes("alice")],
        "t".to_string(),
    );
    assert_eq!(doc, Ok(r#"{"table_name":"t","id":"1","name":"alice"}"#.to_string()));
}

#[test]
fn record_document_typed_and_escaped() {
    let doc = App::wrap_to_json_string(
        columns(&["n", "q\"k", "z"]),
        vec![CellValue::Int(-3), bytes("a\"b\\c\n"), CellValue::Null],
        "t".to_string(),
    );
    assert_eq!(doc, Ok(r#"{"table_name":"t","n":-3,"q\"k":"a\"b\\c\n","z":null}"#.to_string()));
}

#[test]
fn record_document_no_columns() {
    let doc = App::wrap_to_json_string(vec![], vec![], "t".to_string());
    assert_eq!(doc, Ok(r#"{"table_name":"t"}"#.to_string()));
}

#[test]
fn record_length_mismatch() {
    let doc = App::wrap_to_json_string(columns(&["id", "name"]), vec![bytes("1")], "t".to_string());
    assert_eq!(doc, Err(SchemaDrift { columns: 2, values: 1 }));
    let doc = App::wrap_to_json_string(columns(&["id"]), vec![bytes("1"), bytes("x")], "t".to_string());
    assert_eq!(doc, Err(SchemaDrift { columns: 1, values: 2 }));
    assert!(build_record(&columns(&["a"]), &vec![], &"t".to_string()).is_err());
}

#[test]
fn record_fields_in_order() {
    let rec = match build_record(&columns(&["b", "a"]), &vec![CellValue::UInt(2), CellValue::Null], &"t".to_string()) {
        Ok(r) => r,
        Err(_) => panic!("lengths agree"),
    };
    assert_eq!(rec.table_name, "t");
    assert_eq!(rec.fields.len(), 2);
    assert_eq!(rec.fields[0].name, "b");
    assert_eq!(rec.fields[1].name, "a");
    assert_eq!(rec.to_json(), r#"{"table_name":"t","b":2,"a":null}"#);
}

#[test]
fn first_row_chain_base() {
    let values = vec![bytes("1"), bytes("alice")];
    let expected = sha256::digest(format!("{}{}", sha256::digest("1"), sha256::digest("alice")));
    assert_eq!(calculate_hash(&values, None), expected);
    assert_eq!(calculate_hash(&vec![], None), sha256::digest(""));
}

#[test]
fn chain_with_previous() {
    let prev = calculate_hash(&vec![bytes("1"), bytes("alice")], None);
    let expected = sha256::digest(format!("{}{}{}", sha256::digest("2"), sha256::digest("bob"), prev));
    assert_eq!(calculate_hash(&vec![bytes("2"), bytes("bob")], Some(prev)), expected);
}

#[test]
fn chain_input_joins_digests() {
    let ds = vec!["ab".to_string(), "cd".to_string()];
    assert_eq!(chain_input(&ds, &None), "abcd");
    assert_eq!(chain_input(&ds, &Some("ef".to_string())), "abcdef");
}

#[test]
fn chain_is_deterministic() {
    let values = vec![CellValue::Int(5), CellValue::Null, CellValue::Date(2020, 1, 2, 3, 4, 5, 6)];
    let a = calculate_hash(&values, Some("x".to_string()));
    let b = calculate_hash(&values, Some("x".to_string()));
    assert_eq!(a, b);
    assert_eq!(a.len(), 64);
    // same cell texts, different types: same digest
    let c = calculate_hash(
        &vec![bytes("5"), bytes("null"), bytes("2020.1.2-3:4:5::6")],
        Some("x".to_string()),
    );
    assert_eq!(a, c);
}

#[test]
fn chain_is_sensitive() {
    let first = calculate_hash(&vec![bytes("1"), bytes("alice")], None);
    let first_changed = calculate_hash(&vec![bytes("1"), bytes("alicf")], None);
    assert_ne!(first, first_changed);
    let second = calculate_hash(&vec![bytes("2"), bytes("bob")], Some(first.clone()));
    let second_after_change = calculate_hash(&vec![bytes("2"), bytes("bob")], Some(first_changed));
    assert_ne!(second, second_after_change);
    let swapped = calculate_hash(&vec![bytes("alice"), bytes("1")], None);
    assert_ne!(first, swapped);
}

#[test]
fn cursor_advances_one_per_fetch() {
    let mut c = RowCursor::new();
    assert_eq!(c.next_row_id, FIRST_ROW_ID);
    for n in 1..=5u64 {
        assert_eq!(c.advance(), FIRST_ROW_ID + n - 1);
    }
    assert_eq!(c.next_row_id, 6);
}

#[test]
fn cursor_advances_on_failed_fetches() {
    let mut app = App::new("t".to_string(), columns(&["id"]));
    let mut queried = vec![];
    for _ in 0..3 {
        match app.next_fetch() {
            Step::Fetch { position, query } => {
                assert_eq!(query, format!("SELECT * FROM t WHERE id = {};", position));
                queried.push(position);
            }
            _ => panic!("expected a fetch"),
        }
        assert_eq!(expect_stop(app.handle(Event::NoRow)), PipelineError::NotFound);
        assert!(matches!(app.stage, Stage::Stopped));
        app.stage = Stage::Idle;
    }
    assert_eq!(queried, vec![1, 2, 3]);
    assert_eq!(app.cursor.next_row_id, 4);
    assert!(app.last_hash.is_none());
}

#[test]
fn end_to_end_two_rows() {
    let mut app = App::new("t".to_string(), columns(&["id", "name"]));
    match app.next_fetch() {
        Step::Fetch { query, position } => {
            assert_eq!(position, 1);
            assert_eq!(query, "SELECT * FROM t WHERE id = 1;");
        }
        _ => panic!("expected a fetch"),
    }
    let document = expect_store(app.handle(Event::Row(vec![bytes("1"), bytes("alice")])));
    assert_eq!(document, r#"{"table_name":"t","id":"1","name":"alice"}"#);
    assert!(app.last_hash.is_none());
    match app.handle(Event::Stored("QmFirst".to_string())) {
        Step::Publish { path } => assert_eq!(path, "/ipfs/QmFirst"),
        _ => panic!("expected a publish"),
    }
    assert!(app.last_hash.is_none());
    let first = match app.handle(Event::Published("k51".to_string())) {
        Step::Report { key, anchor, digest } => {
            assert_eq!(key, "k51");
            assert_eq!(anchor, "QmFirst");
            digest
        }
        _ => panic!("expected a report"),
    };
    let expected = sha256::digest(format!("{}{}", sha256::digest("1"), sha256::digest("alice")));
    assert_eq!(first, expected);
    assert_eq!(app.last_hash, Some(expected.clone()));
    let (doc2, second) = run_row(&mut app, vec![bytes("2"), bytes("bob")], "QmSecond", "k51");
    assert_eq!(doc2, r#"{"table_name":"t","id":"2","name":"bob"}"#);
    let expected2 = sha256::digest(format!("{}{}{}", sha256::digest("2"), sha256::digest("bob"), expected));
    assert_eq!(second, expected2);
    assert_eq!(app.cursor.next_row_id, 3);
}

#[test]
fn failed_publish_keeps_chain() {
    let mut app = App::new("t".to_string(), columns(&["id"]));
    let (_, first) = run_row(&mut app, vec![bytes("1")], "QmA", "k");
    app.next_fetch();
    expect_store(app.handle(Event::Row(vec![bytes("2")])));
    match app.handle(Event::Stored("QmB".to_string())) {
        Step::Publish { .. } => {}
        _ => panic!("expected a publish"),
    }
    assert_eq!(expect_stop(app.handle(Event::Failed)), PipelineError::PublishAfterStore);
    assert_eq!(app.last_hash, Some(first));
    assert_eq!(app.cursor.next_row_id, 3);
    assert!(matches!(app.stage, Stage::Stopped));
}

#[test]
fn failed_fetch_and_store() {
    let mut app = App::new("t".to_string(), columns(&["id"]));
    app.next_fetch();
    assert_eq!(expect_stop(app.handle(Event::Failed)), PipelineError::Database);
    let mut app = App::new("t".to_string(), columns(&["id"]));
    app.next_fetch();
    expect_store(app.handle(Event::Row(vec![bytes("1")])));
    assert_eq!(expect_stop(app.handle(Event::Failed)), PipelineError::Storage);
    assert!(app.last_hash.is_none());
}

#[test]
fn schema_drift_stops() {
    let mut app = App::new("t".to_string(), columns(&["id", "name"]));
    app.next_fetch();
    let e = expect_stop(app.handle(Event::Row(vec![bytes("1")])));
    assert_eq!(e, PipelineError::SchemaDrift(SchemaDrift { columns: 2, values: 1 }));
    assert!(app.last_hash.is_none());
}

#[test]
fn out_of_order_events_stop() {
    let mut app = App::new("t".to_string(), columns(&["id"]));
    assert_eq!(expect_stop(app.handle(Event::Stored("x".to_string()))), PipelineError::OutOfOrder);
    let mut app = App::new("t".to_string(), columns(&["id"]));
    app.next_fetch();
    assert_eq!(expect_stop(app.next_fetch()), PipelineError::OutOfOrder);
    let mut app = App::new("t".to_string(), columns(&["id"]));
    app.next_fetch();
    assert_eq!(expect_stop(app.handle(Event::Published("k".to_string()))), PipelineError::OutOfOrder);
}

#[test]
fn cursor_exhausted() {
    let mut app = App::new("t".to_string(), columns(&["id"]));
    app.cursor.next_row_id = u64::MAX;
    assert_eq!(expect_stop(app.next_fetch()), PipelineError::CursorExhausted);
    assert_eq!(app.cursor.next_row_id, u64::MAX);
}

#[test]
fn query_texts() {
    assert_eq!(row_query("orders", 42), "SELECT * FROM orders WHERE id = 42;");
    assert_eq!(schema_query("orders"), "SHOW `columns` FROM `orders`;");
    assert_eq!(publish_path("QmX"), "/ipfs/QmX");
    assert_eq!(POINTER_LIFETIME, "12h");
}

#[test]
fn app_calculate_hash_matches() {
    let app = App::new("t".to_string(), columns(&["id"]));
    let values = vec![CellValue::UInt(1)];
    assert_eq!(app.calculate_hash(&values, None), calculate_hash(&values, None));
}
