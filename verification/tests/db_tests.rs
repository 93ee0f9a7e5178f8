use uws_gateway::db::create_flat_table;
use uws_gateway::db::get_column_names;
use uws_gateway::db::get_records;
use uws_gateway::db::read;
use uws_gateway::db::read_from_string;
use uws_gateway::db::FlatTable;
use uws_gateway::db::Searchable;
use uws_gateway::errors::DbError;
use uws_gateway::provider::StoreProvider;
use uws_gateway::record::Record;

#[test]
fn test_extracting_column_names_from_file() {
    let table = "\
            column1, column2, column3
            row1_value1, row1_value2, row1_value3
            row2_value1, row2_value2, row2_value3";

    let columns = get_column_names(&String::from(table)).unwrap();

    assert_eq!(columns, vec!["column1", "column2", "column3"])
}

#[test]
fn test_extracting_rows_from_file() {
    let table = "\
            column1, column2, column3
            row1_value1, row1_value2, row1_value3
            row2_value1, row2_value2, row2_value3";

    let rows = get_records(&String::from(table));

    assert_eq!(
        rows,
        vec![
            vec!["row1_value1", "row1_value2", "row1_value3"],
            vec!["row2_value1", "row2_value2", "row2_value3"],
        ]
    )
}

#[test]
fn test_creating_flat_table() {
    let table = String::from(
        "\
            column1, column2, column3
            row1_value1, row1_value2, row1_value3
            row2_value1, row2_value2, row2_value3",
    );

    let columns = get_column_names(&table).unwrap();
    let rows = get_records(&table);
    let data_object = create_flat_table(columns, rows);

    let mut row1 = Record::new();
    row1.insert("column1", "row1_value1");
    row1.insert("column2", "row1_value2");
    row1.insert("column3", "row1_value3");
    let mut row2 = Record::new();
    row2.insert("column1", "row2_value1");
    row2.insert("column2", "row2_value2");
    row2.insert("column3", "row2_value3");

    assert_eq!(data_object, vec![row1, row2])
}

#[test]
fn test_finding_by_attribute_and_value() {
    let table = String::from(
        "\
            column1, column2, column3
            row1_value1, row1_value2, row1_value3
            row2_value1, row2_value2, row2_value3",
    );

    let mut flat_table = FlatTable::new_from_string(table).unwrap();
    let provider = StoreProvider::new();

    if let Some(record) = flat_table.find_by(&provider, "column2", "row2_value2").unwrap() {
        let mut expected = Record::new();
        expected.insert("column1", "row2_value1");
        expected.insert("column2", "row2_value2");
        expected.insert("column3", "row2_value3");
        assert_eq!(record, expected)
    }
}

#[test]
fn empty_source_is_an_empty_table_error() {
    assert_eq!(read_from_string(""), Err(DbError::EmptyTable));
    assert!(FlatTable::new_from_string(String::new()).is_err());
    assert_eq!(
        DbError::EmptyTable.message(),
        "Table has no columns".to_string()
    );
}

#[test]
fn header_is_first_non_blank_line() {
    let records = read_from_string("\n   \nid, name\n7, seven").unwrap();
    assert_eq!(records.len(), 1);
    assert_eq!(records[0].get("id"), Some("7".to_string()));
    assert_eq!(records[0].get("name"), Some("seven".to_string()));
}

#[test]
fn short_row_leaves_trailing_fields_absent() {
    let records = read_from_string("a, b, c\n1, 2").unwrap();
    assert_eq!(records[0].get("a"), Some("1".to_string()));
    assert_eq!(records[0].get("b"), Some("2".to_string()));
    assert_eq!(records[0].get("c"), None);
}

#[test]
fn long_row_drops_extra_fields() {
    let records = read_from_string("a, b\n1, 2, 3").unwrap();
    let mut expected = Record::new();
    expected.insert("a", "1");
    expected.insert("b", "2");
    assert_eq!(records[0], expected);
}

#[test]
fn carriage_returns_are_stripped() {
    let records = read_from_string("a, b\r\n1, 2\r\n").unwrap();
    assert_eq!(records[0].get("a"), Some("1".to_string()));
    assert_eq!(records[0].get("b"), Some("2".to_string()));
}

#[test]
fn refresh_is_idempotent_on_unchanged_source() {
    let table = "id, name\n1, one\n2, two".to_string();
    let mut flat_table = FlatTable::new_from_string(table).unwrap();
    let provider = StoreProvider::new();

    flat_table.refresh(&provider).unwrap();
    let first = flat_table.items.clone();
    flat_table.refresh(&provider).unwrap();
    let second = flat_table.items.clone();

    assert_eq!(first, second);

    let mut named = StoreProvider::new();
    named.add_table("things", "id\n1\n2");
    assert_eq!(read(&named, "things"), read(&named, "things"));
}

#[test]
fn find_by_returns_first_match_in_file_order() {
    let table = "k, v\nfirst, same\nsecond, same".to_string();
    let mut flat_table = FlatTable::new_from_string(table).unwrap();
    let provider = StoreProvider::new();

    let record = flat_table.find_by(&provider, "v", "same").unwrap().unwrap();
    assert_eq!(record.get("k"), Some("first".to_string()));
}

#[test]
fn find_by_absent_value_is_none() {
    let table = "k, v\nfirst, one".to_string();
    let mut flat_table = FlatTable::new_from_string(table).unwrap();
    let provider = StoreProvider::new();

    assert_eq!(flat_table.find_by(&provider, "v", "two").unwrap(), None);
    assert_eq!(flat_table.find_by(&provider, "w", "one").unwrap(), None);
}

#[test]
fn missing_named_source_is_an_error() {
    let mut flat_table = FlatTable::new("absent".to_string());
    let provider = StoreProvider::new();

    let err = flat_table.find_by(&provider, "id", "1").unwrap_err();
    assert_eq!(err, DbError::MissingSource("absent".to_string()));
    assert_eq!(err.message(), "Missing source for table: absent".to_string());
}

#[test]
fn get_table_name_answers_with_the_bound_name() {
    let flat_table = FlatTable::new("consumers".to_string());
    assert_eq!(flat_table.get_table_name(), "consumers");
}
