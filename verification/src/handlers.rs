//! What the bot answers: the command an update asks for, and for each command
//! the message or charts sent back, or the page shown.

use vstd::prelude::*;
use vstd::string::StringExecFns;
use crate::chart::{charted_value, reading_of, series, timestamps, Quantity};
use crate::storage::{spec_insert_params, spec_to_str, to_str, SensorsData, SensorsText};
use crate::text::{decimal_i64, decimal_u64, spec_decimal, spec_decimal_int};
use crate::tgapi::{escape_reserved, spec_escape_report, Update};
use crate::utils::{parse_time, spec_zoned_time_text, MOSCOW_OFFSET};

verus! {

/// A message to send to a chat.
pub struct OutgoingMessage {
    /// The chat's id, in decimal.
    pub chat_id: String,
    pub text: String,
}

/// The chat id of `update`, in decimal, as the requests carry it.
pub open spec fn spec_chat_id(update: Update) -> Seq<char> {
    spec_decimal(update.message.chat.id as nat)
}

fn chat_id_of(update: &Update) -> (r: String)
    ensures
        r@ == spec_chat_id(*update),
{
    decimal_u64(update.message.chat.id)
}

fn reply(update: &Update, text: &str) -> (r: OutgoingMessage)
    ensures
        r.chat_id@ == spec_chat_id(*update),
        r.text@ == text@,
{
    OutgoingMessage { chat_id: chat_id_of(update), text: String::from_str(text) }
}

/// The greeting sent for `/start`.
pub open spec fn start_text() -> Seq<char> {
    "\nI am overtired's bot. I can send you:\n- Send current reading from air sensors\n- Send charts with air sensors values changes\n- Send your current chat id (used to send notifications)\n"@
}

/// The answer to `/start`: the greeting, to the chat the update came from.
pub fn handle_start(update: &Update) -> (r: OutgoingMessage)
    ensures
        r.chat_id@ == spec_chat_id(*update),
        r.text@ == start_text(),
{
    reply(
        update,
        "\nI am overtired's bot. I can send you:\n- Send current reading from air sensors\n- Send charts with air sensors values changes\n- Send your current chat id (used to send notifications)\n",
    )
}

/// The answer to a command the bot does not know.
pub fn handle_unknown_command(update: &Update) -> (r: OutgoingMessage)
    ensures
        r.chat_id@ == spec_chat_id(*update),
        r.text@ == "Unknown command"@,
{
    reply(update, "Unknown command")
}

/// The answer to `/erase`, sent once the old rows are deleted.
pub fn handle_erase(update: &Update) -> (r: OutgoingMessage)
    ensures
        r.chat_id@ == spec_chat_id(*update),
        r.text@ == "Old database entities were erased"@,
{
    reply(update, "Old database entities were erased")
}

/// The answer to `/chat_id`: the chat's own id.
pub open spec fn chat_id_text(update: Update) -> Seq<char> {
    "Your `chat_id` is: `"@ + spec_chat_id(update) + "`"@
}

/// The answer to `/chat_id`.
pub fn handle_chat_id(update: &Update) -> (r: OutgoingMessage)
    ensures
        r.chat_id@ == spec_chat_id(*update),
        r.text@ == chat_id_text(*update),
{
    let mut text = String::from_str("Your `chat_id` is: `");
    let id = chat_id_of(update);
    text.append(id.as_str());
    text.append("`");
    OutgoingMessage { chat_id: id, text }
}

/// The latest readings as the report shows them: the temperature with one
/// decimal, the others with two, as `{:.1}` and `{:.2}` write them.
pub struct ReportFigures {
    pub temperature: String,
    pub humidity: String,
    pub co2: String,
    pub pressure: String,
    /// The size of the database file in megabytes.
    pub db_size: String,
}

/// The report of the latest readings, before escaping; `time` is the local time
/// of the readings.
pub open spec fn spec_report_text(time: Seq<char>, figures: ReportFigures) -> Seq<char> {
    "\n*timestamp*: "@ + time + "\n"@ + "*temperature*: "@ + figures.temperature@ + " C\n"@
        + "*humidity*: "@ + figures.humidity@ + "%\n"@ + "*co2*: "@ + figures.co2@ + " ppm\n"@
        + "*pressure*: "@ + figures.pressure@ + " hPa\n"@ + "*database size*: "@
        + figures.db_size@ + " Mb\n"@ + "            "@
}

/// The report of the latest readings, taken at the local time `time`, to the
/// chat the update came from; `-`, `.` and `+` are escaped for MarkdownV2.
pub fn sensors_report(update: &Update, time: &str, figures: &ReportFigures) -> (r: OutgoingMessage)
    ensures
        r.chat_id@ == spec_chat_id(*update),
        r.text@ == spec_escape_report(spec_report_text(time@, *figures)),
{
    let mut text = String::from_str("\n*timestamp*: ");
    text.append(time);
    text.append("\n");
    text.append("*temperature*: ");
    text.append(figures.temperature.as_str());
    text.append(" C\n");
    text.append("*humidity*: ");
    text.append(figures.humidity.as_str());
    text.append("%\n");
    text.append("*co2*: ");
    text.append(figures.co2.as_str());
    text.append(" ppm\n");
    text.append("*pressure*: ");
    text.append(figures.pressure.as_str());
    text.append(" hPa\n");
    text.append("*database size*: ");
    text.append(figures.db_size.as_str());
    text.append(" Mb\n");
    text.append("            ");
    OutgoingMessage { chat_id: chat_id_of(update), text: escape_reserved(text.as_str(), false) }
}

/// The answer to `/sensors`: the report of the readings taken at `timestamp`,
/// or `None` where chrono has no local time for `timestamp`.
pub fn handle_sensors(update: &Update, timestamp: i64, figures: &ReportFigures) -> (r: Option<
    OutgoingMessage,
>)
    ensures
        match spec_zoned_time_text(timestamp, MOSCOW_OFFSET) {
            Some(time) => r matches Some(m) && m.chat_id@ == spec_chat_id(*update) && m.text@
                == spec_escape_report(spec_report_text(time, *figures)),
            None => r is None,
        },
{
    match parse_time(timestamp) {
        Some(time) => Some(sensors_report(update, time.as_str(), figures)),
        None => None,
    }
}

/// A chart to draw and send to a chat.
pub struct ChartPost {
    pub chat_id: String,
    pub title: String,
    /// The image file the chart is saved to and sent from.
    pub filename: String,
    pub times: Vec<i64>,
    /// The values, as `f64` bit patterns, one for each time.
    pub values: Vec<u64>,
}

/// The charts of `/sensors_histogram_*`, in the order they are sent: title,
/// file and quantity.
pub open spec fn chart_title(k: int) -> Seq<char> {
    if k == 0 {
        "Pressure, hPa"@
    } else if k == 1 {
        "Humidity, %"@
    } else if k == 2 {
        "co2, ppm"@
    } else {
        "Temperature, C"@
    }
}

pub open spec fn chart_filename(k: int) -> Seq<char> {
    if k == 0 {
        "pressure.png"@
    } else if k == 1 {
        "humidity.png"@
    } else if k == 2 {
        "co2.png"@
    } else {
        "temperature.png"@
    }
}

pub open spec fn chart_quantity(k: int) -> Quantity {
    if k == 0 {
        Quantity::Pressure
    } else if k == 1 {
        Quantity::Humidity
    } else if k == 2 {
        Quantity::Co2
    } else {
        Quantity::Temperature
    }
}

/// The `k`-th chart of the histogram answer is the one for `values`.
pub open spec fn is_history_chart(
    post: ChartPost,
    k: int,
    update: Update,
    values: Seq<SensorsData>,
) -> bool {
    &&& post.chat_id@ == spec_chat_id(update)
    &&& post.title@ == chart_title(k)
    &&& post.filename@ == chart_filename(k)
    &&& post.times.len() == values.len()
    &&& post.values.len() == values.len()
    &&& forall|i: int| 0 <= i < values.len() ==> #[trigger] post.times[i] == values[i].timestamp
    &&& forall|i: int|
        0 <= i < values.len() ==> #[trigger] post.values[i] == charted_value(
            reading_of(values[i], chart_quantity(k)),
        )
}

fn history_chart(
    update: &Update,
    values: &Vec<SensorsData>,
    title: &str,
    filename: &str,
    q: Quantity,
    k: Ghost<int>,
) -> (r: ChartPost)
    requires
        title@ == chart_title(k@),
        filename@ == chart_filename(k@),
        q == chart_quantity(k@),
    ensures
        is_history_chart(r, k@, *update, values@),
{
    ChartPost {
        chat_id: chat_id_of(update),
        title: String::from_str(title),
        filename: String::from_str(filename),
        times: timestamps(values),
        values: series(values, q),
    }
}

/// The answer to `/sensors_histogram_*`: four charts of all the rows, of
/// pressure, humidity, co2 and temperature, in this order; a missing reading
/// is charted as `0.0`.
pub fn handle_sensors_hist(update: &Update, values: &Vec<SensorsData>) -> (r: Vec<ChartPost>)
    ensures
        r.len() == 4,
        forall|k: int| 0 <= k < 4 ==> is_history_chart(#[trigger] r[k], k, *update, values@),
{
    let mut posts: Vec<ChartPost> = Vec::new();
    posts.push(history_chart(update, values, "Pressure, hPa", "pressure.png", Quantity::Pressure, Ghost(0)));
    posts.push(history_chart(update, values, "Humidity, %", "humidity.png", Quantity::Humidity, Ghost(1)));
    posts.push(history_chart(update, values, "co2, ppm", "co2.png", Quantity::Co2, Ghost(2)));
    posts.push(history_chart(update, values, "Temperature, C", "temperature.png", Quantity::Temperature, Ghost(3)));
    posts
}

/// The lines joined with `sep` between each two of them.
pub open spec fn spec_join(lines: Seq<Seq<char>>, sep: Seq<char>) -> Seq<char>
    decreases lines.len(),
{
    if lines.len() == 0 {
        seq![]
    } else if lines.len() == 1 {
        lines[0]
    } else {
        spec_join(lines.drop_last(), sep) + sep + lines.last()
    }
}

/// One row on the index page: the timestamp and the four readings, separated
/// by `, `, a missing reading shown as `NULL`.
pub open spec fn spec_index_line(row: SensorsText) -> Seq<char> {
    spec_decimal_int(row.timestamp as int) + ", "@ + spec_to_str(row.co2) + ", "@ + spec_to_str(
        row.humidity,
    ) + ", "@ + spec_to_str(row.pressure) + ", "@ + spec_to_str(row.temperature)
}

/// The index page: the database size, then one line per row.
pub open spec fn spec_index_page(db_size: Seq<char>, rows: Seq<SensorsText>) -> Seq<char> {
    "Db size: "@ + db_size + " Mb; Sensors:\n"@ + spec_join(
        rows.map_values(|row: SensorsText| spec_index_line(row)),
        "\n"@,
    )
}

fn index_line(row: &SensorsText) -> (r: String)
    ensures
        r@ == spec_index_line(*row),
{
    let mut line = decimal_i64(row.timestamp);
    line.append(", ");
    line.append(to_str(row.co2.clone()).as_str());
    line.append(", ");
    line.append(to_str(row.humidity.clone()).as_str());
    line.append(", ");
    line.append(to_str(row.pressure.clone()).as_str());
    line.append(", ");
    line.append(to_str(row.temperature.clone()).as_str());
    line
}

/// The index page for a database of `db_size` megabytes (written with two
/// decimals) holding `rows`.
pub fn handle_index(db_size: &str, rows: &Vec<SensorsText>) -> (r: String)
    ensures
        r@ == spec_index_page(db_size@, rows@),
{
    let ghost lines = rows@.map_values(|row: SensorsText| spec_index_line(row));
    let mut page = String::from_str("Db size: ");
    page.append(db_size);
    page.append(" Mb; Sensors:\n");
    let ghost head = page@;
    for i in 0..rows.len()
        invariant
            lines == rows@.map_values(|row: SensorsText| spec_index_line(row)),
            page@ == head + spec_join(lines.take(i as int), "\n"@),
    {
        assert(lines.take(i + 1).drop_last() =~= lines.take(i as int));
        assert(lines.take(i + 1).last() == lines[i as int]);
        if i > 0 {
            page.append("\n");
        } else {
            assert(spec_join(lines.take(0), "\n"@) =~= seq![]);
        }
        let line = index_line(&rows[i]);
        page.append(line.as_str());
        assert(page@ =~= head + spec_join(lines.take(i + 1), "\n"@));
    }
    assert(lines.take(rows.len() as int) =~= lines);
    page
}

/// The index page shows each row as the parameters it is stored with, joined
/// by `, `.
pub proof fn law_index_line_joins_insert_params(row: SensorsText)
    ensures
        spec_index_line(row) == spec_join(spec_insert_params(row), ", "@),
{
    let p = spec_insert_params(row);
    let sep = ", "@;
    assert(p.drop_last().drop_last().drop_last().drop_last().len() == 1);
    assert(spec_join(p.take(1), sep) == p[0]);
    assert(p.take(2).drop_last() =~= p.take(1));
    assert(p.take(3).drop_last() =~= p.take(2));
    assert(p.take(4).drop_last() =~= p.take(3));
    assert(p.take(5).drop_last() =~= p.take(4));
    assert(p.take(5) =~= p);
    assert(spec_join(p.take(2), sep) == p[0] + sep + p[1]);
    assert(spec_join(p.take(3), sep) == p[0] + sep + p[1] + sep + p[2]);
    assert(spec_join(p.take(4), sep) == p[0] + sep + p[1] + sep + p[2] + sep + p[3]);
    assert(spec_join(p, sep) =~= spec_index_line(row));
}

/// A command of the bot.
#[derive(Debug, Clone, Copy, PartialEq, Eq, Structural)]
pub enum Command {
    Erase,
    Sensors,
    SensorsHistogramAll,
    SensorsHistogramThreeDays,
    Start,
    ChatId,
    Unknown,
}

/// The command that a message text asks for.
pub open spec fn spec_command_of(text: Seq<char>) -> Command {
    if text == "/erase"@ {
        Command::Erase
    } else if text == "/sensors"@ {
        Command::Sensors
    } else if text == "/sensors_histogram_all"@ {
        Command::SensorsHistogramAll
    } else if text == "/sensors_histogram_3_days"@ {
        Command::SensorsHistogramThreeDays
    } else if text == "/start"@ {
        Command::Start
    } else if text == "/chat_id"@ {
        Command::ChatId
    } else {
        Command::Unknown
    }
}

fn is_text(text: &String, literal: &str) -> (r: bool)
    ensures
        r == (text@ == literal@),
{
    let expected = String::from_str(literal);
    *text == expected
}

/// The command that `text` asks for: the whole text must be the command.
pub fn command_of(text: &String) -> (r: Command)
    ensures
        r == spec_command_of(text@),
{
    if is_text(text, "/erase") {
        Command::Erase
    } else if is_text(text, "/sensors") {
        Command::Sensors
    } else if is_text(text, "/sensors_histogram_all") {
        Command::SensorsHistogramAll
    } else if is_text(text, "/sensors_histogram_3_days") {
        Command::SensorsHistogramThreeDays
    } else if is_text(text, "/start") {
        Command::Start
    } else if is_text(text, "/chat_id") {
        Command::ChatId
    } else {
        Command::Unknown
    }
}

} // verus!
