use nl2sql::decode::{decode_cell, decode_row, decode_rows, Attempt, CellAttempts, DecodedValue, RawCell};

fn attempts() -> CellAttempts {
    CellAttempts {
        is_null: false,
        int4: Attempt::Mismatch,
        int8: Attempt::Mismatch,
        float8: Attempt::Mismatch,
        text: Attempt::Mismatch,
        boolean: Attempt::Mismatch,
        json: Attempt::Mismatch,
        text_lossy: Attempt::Mismatch,
        column_type: "uuid".to_string(),
    }
}

fn cell(column: &str, a: CellAttempts) -> RawCell {
    RawCell { column: column.to_string(), attempts: a }
}

#[test]
fn int4_comes_first() {
    let mut a = attempts();
    a.int4 = Attempt::Value(7);
    a.int8 = Attempt::Value(8);
    a.text = Attempt::Value("seven".to_string());
    assert!(matches!(decode_cell(&a), DecodedValue::Integer(7)));
}

#[test]
fn int8_when_int4_mismatches() {
    let mut a = attempts();
    a.int8 = Attempt::Value(1 << 40);
    assert!(matches!(decode_cell(&a), DecodedValue::Integer(v) if v == 1 << 40));
}

#[test]
fn float_kept_as_bits() {
    let mut a = attempts();
    a.float8 = Attempt::Value(2.5f64.to_bits());
    match decode_cell(&a) {
        DecodedValue::Float(b) => assert_eq!(f64::from_bits(b), 2.5),
        _ => panic!("expected a float"),
    }
}

#[test]
fn text_then_bool_then_json() {
    let mut a = attempts();
    a.text = Attempt::Value("abc".to_string());
    a.boolean = Attempt::Value(true);
    assert!(matches!(decode_cell(&a), DecodedValue::Text(ref s) if s == "abc"));
    let mut b = attempts();
    b.boolean = Attempt::Value(false);
    b.json = Attempt::Value("{}".to_string());
    assert!(matches!(decode_cell(&b), DecodedValue::Boolean(false)));
    let mut c = attempts();
    c.json = Attempt::Value("{\"a\":1}".to_string());
    c.text_lossy = Attempt::Value("x".to_string());
    assert!(matches!(decode_cell(&c), DecodedValue::Json(ref s) if s == "{\"a\":1}"));
    let mut d = attempts();
    d.text_lossy = Attempt::Value("2024-01-01".to_string());
    assert!(matches!(decode_cell(&d), DecodedValue::Text(ref s) if s == "2024-01-01"));
}

#[test]
fn unrepresentable_names_type() {
    let v = decode_cell(&attempts());
    match &v {
        DecodedValue::Unrepresentable(t) => assert_eq!(t, "uuid"),
        _ => panic!("expected the marker"),
    }
    assert_eq!(v.marker().as_deref(), Some("Value of type: uuid"));
    assert!(DecodedValue::Null.marker().is_none());
}

#[test]
fn null_cell_of_unreadable_type_is_null() {
    let mut a = attempts();
    a.is_null = true;
    a.column_type = "numeric".to_string();
    assert!(matches!(decode_cell(&a), DecodedValue::Null));
    let mut b = attempts();
    b.is_null = true;
    b.int4 = Attempt::Null;
    assert!(matches!(decode_cell(&b), DecodedValue::Null));
}

#[test]
fn null_decodes_at_first_accepting_step() {
    let mut a = attempts();
    a.int4 = Attempt::Null;
    assert!(matches!(decode_cell(&a), DecodedValue::Null));
    let mut b = attempts();
    b.text = Attempt::Null;
    b.text_lossy = Attempt::Null;
    assert!(matches!(decode_cell(&b), DecodedValue::Null));
    let mut c = attempts();
    c.json = Attempt::Null;
    assert!(matches!(decode_cell(&c), DecodedValue::Null));
}

#[test]
fn row_keeps_each_column_once_last_wins() {
    let mut a = attempts();
    a.int4 = Attempt::Value(1);
    let mut b = attempts();
    b.text = Attempt::Value("x".to_string());
    let mut c = attempts();
    c.int4 = Attempt::Value(3);
    let row = decode_row(&vec![cell("id", a), cell("name", b), cell("id", c)]);
    assert_eq!(row.entries.len(), 2);
    assert_eq!(row.entries[0].column, "id");
    assert!(matches!(row.entries[0].value, DecodedValue::Integer(3)));
    assert_eq!(row.entries[1].column, "name");
    assert!(matches!(row.entries[1].value, DecodedValue::Text(ref s) if s == "x"));
}

#[test]
fn empty_rows_and_rows() {
    assert!(decode_rows(&vec![]).is_empty());
    let row = decode_row(&vec![]);
    assert!(row.entries.is_empty());
    let mut a = attempts();
    a.boolean = Attempt::Value(true);
    let rows = decode_rows(&vec![vec![cell("ok", a)], vec![]]);
    assert_eq!(rows.len(), 2);
    assert_eq!(rows[0].entries.len(), 1);
    assert!(rows[1].entries.is_empty());
}
