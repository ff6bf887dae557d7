use co2esp32tg::handlers::handle_index;
use co2esp32tg::storage::{insert_params, SensorsText};
use co2esp32tg::text::{decimal_i64, decimal_u64};

#[test]
fn decimal_reads_back_as_the_number() {
    for n in [0u64, 9, 10, 99, 100, 4096, 1234567890123, u64::MAX] {
        let text = decimal_u64(n);
        assert!(text.chars().all(|c| c.is_ascii_digit()));
        assert_eq!(text.parse::<u64>().unwrap(), n);
    }
    for n in [i64::MIN, -1, 0, 1, i64::MAX] {
        assert_eq!(decimal_i64(n).parse::<i64>().unwrap(), n);
    }
}

#[test]
fn index_line_is_insert_params_joined() {
    let row = SensorsText {
        timestamp: -42,
        co2: None,
        humidity: Some(String::from("33.3")),
        pressure: Some(String::from("990")),
        temperature: None,
    };
    let page = handle_index("1.00", &vec![row.clone()]);
    let line = insert_params(&row).join(", ");
    assert_eq!(page, format!("Db size: 1.00 Mb; Sensors:\n{}", line));
    assert_eq!(line, "-42, NULL, 33.3, 990, NULL");
}
