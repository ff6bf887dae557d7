use co2esp32tg::chart::{chart_file_name, encode_png_base64, series, timestamps, Quantity};
use co2esp32tg::handlers::{
    command_of, handle_chat_id, handle_erase, handle_index, handle_sensors, handle_sensors_hist,
    handle_start, handle_unknown_command, sensors_report, Command, ReportFigures,
};
use co2esp32tg::storage::{SensorsData, SensorsText};
use co2esp32tg::tgapi::{Chat, Message, Update};

fn update(id: u64, text: &str) -> Update {
    Update { message: Message { text: String::from(text), chat: Chat { id } } }
}

fn figures() -> ReportFigures {
    ReportFigures {
        temperature: String::from("21.5"),
        humidity: String::from("40.25"),
        co2: String::from("612.00"),
        pressure: String::from("1002.13"),
        db_size: String::from("0.05"),
    }
}

#[test]
fn commands_are_routed() {
    assert_eq!(command_of(&String::from("/erase")), Command::Erase);
    assert_eq!(command_of(&String::from("/sensors")), Command::Sensors);
    assert_eq!(command_of(&String::from("/sensors_histogram_all")), Command::SensorsHistogramAll);
    assert_eq!(
        command_of(&String::from("/sensors_histogram_3_days")),
        Command::SensorsHistogramThreeDays
    );
    assert_eq!(command_of(&String::from("/start")), Command::Start);
    assert_eq!(command_of(&String::from("/chat_id")), Command::ChatId);
}

#[test]
fn other_texts_are_unknown_commands() {
    assert_eq!(command_of(&String::from("")), Command::Unknown);
    assert_eq!(command_of(&String::from("/sensors ")), Command::Unknown);
    assert_eq!(command_of(&String::from("sensors")), Command::Unknown);
    assert_eq!(command_of(&String::from("/START")), Command::Unknown);
}

#[test]
fn start_greets() {
    let m = handle_start(&update(42, "/start"));
    assert_eq!(m.chat_id, "42");
    assert_eq!(
        m.text,
        "\nI am overtired's bot. I can send you:\n- Send current reading from air sensors\n- Send charts with air sensors values changes\n- Send your current chat id (used to send notifications)\n"
    );
}

#[test]
fn unknown_command_answer() {
    let m = handle_unknown_command(&update(7, "/what"));
    assert_eq!(m.chat_id, "7");
    assert_eq!(m.text, "Unknown command");
}

#[test]
fn erase_answer() {
    let m = handle_erase(&update(7, "/erase"));
    assert_eq!(m.chat_id, "7");
    assert_eq!(m.text, "Old database entities were erased");
}

#[test]
fn chat_id_answer() {
    let m = handle_chat_id(&update(123456789, "/chat_id"));
    assert_eq!(m.chat_id, "123456789");
    assert_eq!(m.text, "Your `chat_id` is: `123456789`");
}

#[test]
fn sensors_answer() {
    let m = handle_sensors(&update(42, "/sensors"), 1600000000, &figures()).unwrap();
    assert_eq!(m.chat_id, "42");
    assert_eq!(
        m.text,
        "\n*timestamp*: 2020\\\\-09\\\\-13 15:26:40 \\\\+03:00\n*temperature*: 21\\\\.5 C\n*humidity*: 40\\\\.25%\n*co2*: 612\\\\.00 ppm\n*pressure*: 1002\\\\.13 hPa\n*database size*: 0\\\\.05 Mb\n            "
    );
}

#[test]
fn sensors_answer_without_local_time() {
    assert!(handle_sensors(&update(42, "/sensors"), i64::MAX, &figures()).is_none());
}

#[test]
fn sensors_report_keeps_parentheses() {
    let m = sensors_report(&update(1, "/sensors"), "(now)", &figures());
    assert!(m.text.starts_with("\n*timestamp*: (now)\n"));
}

fn rows() -> Vec<SensorsData> {
    vec![
        SensorsData {
            timestamp: 100,
            co2: Some(600f64.to_bits()),
            humidity: None,
            pressure: Some(1000.5f64.to_bits()),
            temperature: Some((-1.5f64).to_bits()),
        },
        SensorsData {
            timestamp: 200,
            co2: None,
            humidity: Some(40f64.to_bits()),
            pressure: None,
            temperature: Some(2.0f64.to_bits()),
        },
    ]
}

#[test]
fn history_has_four_charts_in_order() {
    let posts = handle_sensors_hist(&update(9, "/sensors_histogram_all"), &rows());
    assert_eq!(posts.len(), 4);
    let titles: Vec<&str> = posts.iter().map(|p| p.title.as_str()).collect();
    assert_eq!(titles, vec!["Pressure, hPa", "Humidity, %", "co2, ppm", "Temperature, C"]);
    let files: Vec<&str> = posts.iter().map(|p| p.filename.as_str()).collect();
    assert_eq!(files, vec!["pressure.png", "humidity.png", "co2.png", "temperature.png"]);
    for p in &posts {
        assert_eq!(p.chat_id, "9");
        assert_eq!(p.times, vec![100, 200]);
    }
    let as_f64 = |v: &Vec<u64>| v.iter().map(|b| f64::from_bits(*b)).collect::<Vec<f64>>();
    assert_eq!(as_f64(&posts[0].values), vec![1000.5, 0.0]);
    assert_eq!(as_f64(&posts[1].values), vec![0.0, 40.0]);
    assert_eq!(as_f64(&posts[2].values), vec![600.0, 0.0]);
    assert_eq!(as_f64(&posts[3].values), vec![-1.5, 2.0]);
}

#[test]
fn history_of_no_rows() {
    let posts = handle_sensors_hist(&update(9, "/sensors_histogram_all"), &Vec::new());
    assert_eq!(posts.len(), 4);
    assert!(posts.iter().all(|p| p.times.is_empty() && p.values.is_empty()));
}

#[test]
fn series_and_timestamps() {
    assert_eq!(timestamps(&rows()), vec![100, 200]);
    assert_eq!(series(&rows(), Quantity::Humidity), vec![0, 40f64.to_bits()]);
}

#[test]
fn index_page() {
    let rows = vec![
        SensorsText {
            timestamp: 100,
            co2: Some(String::from("600")),
            humidity: None,
            pressure: Some(String::from("1000.5")),
            temperature: Some(String::from("-1.5")),
        },
        SensorsText {
            timestamp: 200,
            co2: None,
            humidity: Some(String::from("40")),
            pressure: None,
            temperature: Some(String::from("2")),
        },
    ];
    assert_eq!(
        handle_index("0.05", &rows),
        "Db size: 0.05 Mb; Sensors:\n100, 600, NULL, 1000.5, -1.5\n200, NULL, 40, NULL, 2"
    );
    assert_eq!(handle_index("0.00", &Vec::new()), "Db size: 0.00 Mb; Sensors:\n");
}

#[test]
fn chart_files_and_base64() {
    assert_eq!(chart_file_name("co2, ppm"), "co2, ppm.png");
    assert_eq!(encode_png_base64(&b"Man".to_vec()), "TWFu");
    assert_eq!(encode_png_base64(&b"Ma".to_vec()), "TWE=");
    assert_eq!(encode_png_base64(&Vec::new()), "");
}
