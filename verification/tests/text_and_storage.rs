use co2esp32tg::storage::{erase_statement, insert_params, to_opt, to_str, SensorsText, KEEP_SECS};
use co2esp32tg::text::{decimal_i64, decimal_u64};

#[test]
fn decimal_of_unsigned_numbers() {
    assert_eq!(decimal_u64(0), "0");
    assert_eq!(decimal_u64(7), "7");
    assert_eq!(decimal_u64(10), "10");
    assert_eq!(decimal_u64(123456789), "123456789");
    assert_eq!(decimal_u64(u64::MAX), u64::MAX.to_string());
}

#[test]
fn decimal_of_signed_numbers() {
    assert_eq!(decimal_i64(0), "0");
    assert_eq!(decimal_i64(-5), "-5");
    assert_eq!(decimal_i64(1600000000), "1600000000");
    assert_eq!(decimal_i64(i64::MIN), i64::MIN.to_string());
    assert_eq!(decimal_i64(i64::MAX), i64::MAX.to_string());
}

#[test]
fn to_str_writes_null_for_missing_value() {
    assert_eq!(to_str(None), "NULL");
    assert_eq!(to_str(Some(String::from("21.5"))), "21.5");
}

#[test]
fn to_opt_keeps_only_values() {
    let ok: Result<i32, String> = Ok(3);
    let err: Result<i32, String> = Err(String::from("no such column"));
    assert_eq!(to_opt(ok), Some(3));
    assert_eq!(to_opt(err), None);
}

#[test]
fn insert_params_are_in_column_order() {
    let row = SensorsText {
        timestamp: 1600000000,
        co2: Some(String::from("612")),
        humidity: None,
        pressure: Some(String::from("1002.13")),
        temperature: Some(String::from("21.5")),
    };
    assert_eq!(insert_params(&row), vec!["1600000000", "612", "NULL", "1002.13", "21.5"]);
}

#[test]
fn erase_statement_deletes_rows_older_than_thirty_days() {
    assert_eq!(KEEP_SECS, 2592000);
    assert_eq!(erase_statement(2592000 + 100), " DELETE FROM sensors WHERE timestamp < 100");
    assert_eq!(
        erase_statement(1600000000),
        " DELETE FROM sensors WHERE timestamp < 1597408000"
    );
    assert_eq!(erase_statement(KEEP_SECS), " DELETE FROM sensors WHERE timestamp < 0");
}
