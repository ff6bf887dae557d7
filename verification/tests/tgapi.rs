use co2esp32tg::tgapi::{send_image_request, send_message_request, TgEscapable};
use co2esp32tg::utils::{parse_time, MOSCOW_OFFSET};

#[test]
fn escape_tg_escapes_reserved_characters() {
    let text = String::from("a-b.c+d(e)");
    assert_eq!(text.escape_tg(), "a\\\\-b\\\\.c\\\\+d\\\\(e\\\\)");
}

#[test]
fn escape_tg_keeps_plain_text() {
    let text = String::from("Hello world, 42%!");
    assert_eq!(text.escape_tg(), "Hello world, 42%!");
    assert_eq!(String::new().escape_tg(), "");
}

#[test]
fn escape_tg_keeps_other_text_unicode() {
    let text = String::from("Привет-мир");
    assert_eq!(text.escape_tg(), "Привет\\\\-мир");
}

#[test]
fn escape_tg_distinguishes_texts() {
    let a = String::from("a-b");
    let b = String::from("a\\\\-b");
    assert_ne!(a.escape_tg(), b.escape_tg());
}

#[test]
fn escape_tg_of_concatenation() {
    let a = String::from("1.5");
    let b = String::from("(ppm)");
    let ab = String::from("1.5(ppm)");
    assert_eq!(ab.escape_tg(), format!("{}{}", a.escape_tg(), b.escape_tg()));
}

#[test]
fn send_message_request_url_and_body() {
    let post = send_message_request("123:abc", "42", "hi");
    assert_eq!(post.url, "https://api.telegram.org/bot123:abc/sendMessage");
    assert_eq!(
        post.body,
        "{ \"parse_mode\":\"MarkdownV2\", \"chat_id\":42, \"text\":\"hi\" }"
    );
}

#[test]
fn send_image_request_form() {
    let upload = send_image_request("123:abc", "42", "co2.png");
    assert_eq!(upload.url, "https://api.telegram.org/bot123:abc/sendPhoto");
    assert_eq!(upload.chat_id, "42");
    assert_eq!(upload.photo_path, "co2.png");
}

#[test]
fn parse_time_is_moscow_time() {
    assert_eq!(MOSCOW_OFFSET, 10800);
    assert_eq!(parse_time(0), Some(String::from("1970-01-01 03:00:00 +03:00")));
    assert_eq!(parse_time(1600000000), Some(String::from("2020-09-13 15:26:40 +03:00")));
    assert_eq!(parse_time(-3600), Some(String::from("1970-01-01 02:00:00 +03:00")));
}

#[test]
fn parse_time_out_of_range() {
    assert_eq!(parse_time(i64::MAX), None);
    assert_eq!(parse_time(i64::MIN), None);
}
