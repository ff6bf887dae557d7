//! Laws of the bot's answers, stated over the inputs and results themselves.

use vstd::prelude::*;
use crate::chart::{charted_value, reading_of, Quantity};
use crate::handlers::{
    chat_id_text, is_history_chart, spec_chat_id, spec_command_of, spec_index_line,
    spec_index_page, spec_join, spec_report_text, Command, ReportFigures,
};
use crate::storage::{SensorsData, SensorsText};
use crate::text::{decimal_value, law_decimal_round_trip, spec_decimal};
use crate::storage::{spec_erase_statement, spec_insert_params, spec_to_str};
use crate::text::spec_decimal_int;
use crate::tgapi::{spec_api_url, spec_message_body, Update};

verus! {

/// `x` stands in `r` right after `label` and right before `end`.
pub open spec fn shows_between(r: Seq<char>, label: Seq<char>, x: Seq<char>, end: Seq<char>) -> bool {
    exists|i: int|
        label.len() <= i && i + x.len() + end.len() <= r.len() && #[trigger] r.subrange(
            i - label.len(),
            i,
        ) == label && r.subrange(i, i + x.len()) == x && r.subrange(
            i + x.len(),
            i + x.len() + end.len(),
        ) == end
}

proof fn lemma_shows(a: Seq<char>, label: Seq<char>, x: Seq<char>, end: Seq<char>)
    ensures
        shows_between(a + label + x + end, label, x, end),
{
    let r = a + label + x + end;
    let i: int = (a.len() + label.len()) as int;
    assert(r.subrange(i - label.len(), i) =~= label);
    assert(r.subrange(i, i + x.len() as int) =~= x);
    assert(r.subrange(i + x.len() as int, i + x.len() as int + end.len() as int) =~= end);
}

proof fn lemma_shows_start(label: Seq<char>, x: Seq<char>, end: Seq<char>)
    ensures
        shows_between(Seq::<char>::empty() + label + x + end, label, x, end),
{
    lemma_shows(Seq::<char>::empty(), label, x, end);
}

proof fn lemma_shows_extend(r: Seq<char>, label: Seq<char>, x: Seq<char>, end: Seq<char>, q: Seq<char>)
    requires
        shows_between(r, label, x, end),
    ensures
        shows_between(r + q, label, x, end),
{
    let i = choose|i: int|
        label.len() <= i && i + x.len() + end.len() <= r.len() && #[trigger] r.subrange(
            i - label.len(),
            i,
        ) == label && r.subrange(i, i + x.len()) == x && r.subrange(
            i + x.len(),
            i + x.len() + end.len(),
        ) == end;
    let s = r + q;
    assert(s.subrange(i - label.len(), i) =~= r.subrange(i - label.len(), i));
    assert(s.subrange(i, i + x.len()) =~= r.subrange(i, i + x.len()));
    assert(s.subrange(i + x.len(), i + x.len() + end.len()) =~= r.subrange(
        i + x.len(),
        i + x.len() + end.len(),
    ));
}

proof fn lemma_report_piece_0(time: Seq<char>, figures: ReportFigures)
    ensures
        shows_between(spec_report_text(time, figures), "\n*timestamp*: "@, time, "\n"@),
{
    lemma_shows_start("\n*timestamp*: "@, time, "\n"@);
    assert(Seq::<char>::empty() + "\n*timestamp*: "@ + time + "\n"@ =~= "\n*timestamp*: "@ + time + "\n"@);
    lemma_shows_extend("\n*timestamp*: "@ + time + "\n"@, "\n*timestamp*: "@, time, "\n"@, "*temperature*: "@);
    lemma_shows_extend("\n*timestamp*: "@ + time + "\n"@ + "*temperature*: "@, "\n*timestamp*: "@, time, "\n"@, figures.temperature@);
    lemma_shows_extend("\n*timestamp*: "@ + time + "\n"@ + "*temperature*: "@ + figures.temperature@, "\n*timestamp*: "@, time, "\n"@, " C\n"@);
    lemma_shows_extend("\n*timestamp*: "@ + time + "\n"@ + "*temperature*: "@ + figures.temperature@ + " C\n"@, "\n*timestamp*: "@, time, "\n"@, "*humidity*: "@);
    lemma_shows_extend("\n*timestamp*: "@ + time + "\n"@ + "*temperature*: "@ + figures.temperature@ + " C\n"@ + "*humidity*: "@, "\n*timestamp*: "@, time, "\n"@, figures.humidity@);
    lemma_shows_extend("\n*timestamp*: "@ + time + "\n"@ + "*temperature*: "@ + figures.temperature@ + " C\n"@ + "*humidity*: "@ + figures.humidity@, "\n*timestamp*: "@, time, "\n"@, "%\n"@);
    lemma_shows_extend("\n*timestamp*: "@ + time + "\n"@ + "*temperature*: "@ + figures.temperature@ + " C\n"@ + "*humidity*: "@ + figures.humidity@ + "%\n"@, "\n*timestamp*: "@, time, "\n"@, "*co2*: "@);
    lemma_shows_extend("\n*timestamp*: "@ + time + "\n"@ + "*temperature*: "@ + figures.temperature@ + " C\n"@ + "*humidity*: "@ + figures.humidity@ + "%\n"@ + "*co2*: "@, "\n*timestamp*: "@, time, "\n"@, figures.co2@);
    lemma_shows_extend("\n*timestamp*: "@ + time + "\n"@ + "*temperature*: "@ + figures.temperature@ + " C\n"@ + "*humidity*: "@ + figures.humidity@ + "%\n"@ + "*co2*: "@ + figures.co2@, "\n*timestamp*: "@, time, "\n"@, " ppm\n"@);
    lemma_shows_extend("\n*timestamp*: "@ + time + "\n"@ + "*temperature*: "@ + figures.temperature@ + " C\n"@ + "*humidity*: "@ + figures.humidity@ + "%\n"@ + "*co2*: "@ + figures.co2@ + " ppm\n"@, "\n*timestamp*: "@, time, "\n"@, "*pressure*: "@);
    lemma_shows_extend("\n*timestamp*: "@ + time + "\n"@ + "*temperature*: "@ + figures.temperature@ + " C\n"@ + "*humidity*: "@ + figures.humidity@ + "%\n"@ + "*co2*: "@ + figures.co2@ + " ppm\n"@ + "*pressure*: "@, "\n*timestamp*: "@, time, "\n"@, figures.pressure@);
    lemma_shows_extend("\n*timestamp*: "@ + time + "\n"@ + "*temperature*: "@ + figures.temperature@ + " C\n"@ + "*humidity*: "@ + figures.humidity@ + "%\n"@ + "*co2*: "@ + figures.co2@ + " ppm\n"@ + "*pressure*: "@ + figures.pressure@, "\n*timestamp*: "@, time, "\n"@, " hPa\n"@);
    lemma_shows_extend("\n*timestamp*: "@ + time + "\n"@ + "*temperature*: "@ + figures.temperature@ + " C\n"@ + "*humidity*: "@ + figures.humidity@ + "%\n"@ + "*co2*: "@ + figures.co2@ + " ppm\n"@ + "*pressure*: "@ + figures.pressure@ + " hPa\n"@, "\n*timestamp*: "@, time, "\n"@, "*database size*: "@);
    lemma_shows_extend("\n*timestamp*: "@ + time + "\n"@ + "*temperature*: "@ + figures.temperature@ + " C\n"@ + "*humidity*: "@ + figures.humidity@ + "%\n"@ + "*co2*: "@ + figures.co2@ + " ppm\n"@ + "*pressure*: "@ + figures.pressure@ + " hPa\n"@ + "*database size*: "@, "\n*timestamp*: "@, time, "\n"@, figures.db_size@);
    lemma_shows_extend("\n*timestamp*: "@ + time + "\n"@ + "*temperature*: "@ + figures.temperature@ + " C\n"@ + "*humidity*: "@ + figures.humidity@ + "%\n"@ + "*co2*: "@ + figures.co2@ + " ppm\n"@ + "*pressure*: "@ + figures.pressure@ + " hPa\n"@ + "*database size*: "@ + figures.db_size@, "\n*timestamp*: "@, time, "\n"@, " Mb\n"@);
    lemma_shows_extend("\n*timestamp*: "@ + time + "\n"@ + "*temperature*: "@ + figures.temperature@ + " C\n"@ + "*humidity*: "@ + figures.humidity@ + "%\n"@ + "*co2*: "@ + figures.co2@ + " ppm\n"@ + "*pressure*: "@ + figures.pressure@ + " hPa\n"@ + "*database size*: "@ + figures.db_size@ + " Mb\n"@, "\n*timestamp*: "@, time, "\n"@, "            "@);
}

proof fn lemma_report_piece_3(time: Seq<char>, figures: ReportFigures)
    ensures
        shows_between(spec_report_text(time, figures), "*temperature*: "@, figures.temperature@, " C\n"@),
{
    lemma_shows("\n*timestamp*: "@ + time + "\n"@, "*temperature*: "@, figures.temperature@, " C\n"@);
    lemma_shows_extend("\n*timestamp*: "@ + time + "\n"@ + "*temperature*: "@ + figures.temperature@ + " C\n"@, "*temperature*: "@, figures.temperature@, " C\n"@, "*humidity*: "@);
    lemma_shows_extend("\n*timestamp*: "@ + time + "\n"@ + "*temperature*: "@ + figures.temperature@ + " C\n"@ + "*humidity*: "@, "*temperature*: "@, figures.temperature@, " C\n"@, figures.humidity@);
    lemma_shows_extend("\n*timestamp*: "@ + time + "\n"@ + "*temperature*: "@ + figures.temperature@ + " C\n"@ + "*humidity*: "@ + figures.humidity@, "*temperature*: "@, figures.temperature@, " C\n"@, "%\n"@);
    lemma_shows_extend("\n*timestamp*: "@ + time + "\n"@ + "*temperature*: "@ + figures.temperature@ + " C\n"@ + "*humidity*: "@ + figures.humidity@ + "%\n"@, "*temperature*: "@, figures.temperature@, " C\n"@, "*co2*: "@);
    lemma_shows_extend("\n*timestamp*: "@ + time + "\n"@ + "*temperature*: "@ + figures.temperature@ + " C\n"@ + "*humidity*: "@ + figures.humidity@ + "%\n"@ + "*co2*: "@, "*temperature*: "@, figures.temperature@, " C\n"@, figures.co2@);
    lemma_shows_extend("\n*timestamp*: "@ + time + "\n"@ + "*temperature*: "@ + figures.temperature@ + " C\n"@ + "*humidity*: "@ + figures.humidity@ + "%\n"@ + "*co2*: "@ + figures.co2@, "*temperature*: "@, figures.temperature@, " C\n"@, " ppm\n"@);
    lemma_shows_extend("\n*timestamp*: "@ + time + "\n"@ + "*temperature*: "@ + figures.temperature@ + " C\n"@ + "*humidity*: "@ + figures.humidity@ + "%\n"@ + "*co2*: "@ + figures.co2@ + " ppm\n"@, "*temperature*: "@, figures.temperature@, " C\n"@, "*pressure*: "@);
    lemma_shows_extend("\n*timestamp*: "@ + time + "\n"@ + "*temperature*: "@ + figures.temperature@ + " C\n"@ + "*humidity*: "@ + figures.humidity@ + "%\n"@ + "*co2*: "@ + figures.co2@ + " ppm\n"@ + "*pressure*: "@, "*temperature*: "@, figures.temperature@, " C\n"@, figures.pressure@);
    lemma_shows_extend("\n*timestamp*: "@ + time + "\n"@ + "*temperature*: "@ + figures.temperature@ + " C\n"@ + "*humidity*: "@ + figures.humidity@ + "%\n"@ + "*co2*: "@ + figures.co2@ + " ppm\n"@ + "*pressure*: "@ + figures.pressure@, "*temperature*: "@, figures.temperature@, " C\n"@, " hPa\n"@);
    lemma_shows_extend("\n*timestamp*: "@ + time + "\n"@ + "*temperature*: "@ + figures.temperature@ + " C\n"@ + "*humidity*: "@ + figures.humidity@ + "%\n"@ + "*co2*: "@ + figures.co2@ + " ppm\n"@ + "*pressure*: "@ + figures.pressure@ + " hPa\n"@, "*temperature*: "@, figures.temperature@, " C\n"@, "*database size*: "@);
    lemma_shows_extend("\n*timestamp*: "@ + time + "\n"@ + "*temperature*: "@ + figures.temperature@ + " C\n"@ + "*humidity*: "@ + figures.humidity@ + "%\n"@ + "*co2*: "@ + figures.co2@ + " ppm\n"@ + "*pressure*: "@ + figures.pressure@ + " hPa\n"@ + "*database size*: "@, "*temperature*: "@, figures.temperature@, " C\n"@, figures.db_size@);
    lemma_shows_extend("\n*timestamp*: "@ + time + "\n"@ + "*temperature*: "@ + figures.temperature@ + " C\n"@ + "*humidity*: "@ + figures.humidity@ + "%\n"@ + "*co2*: "@ + figures.co2@ + " ppm\n"@ + "*pressure*: "@ + figures.pressure@ + " hPa\n"@ + "*database size*: "@ + figures.db_size@, "*temperature*: "@, figures.temperature@, " C\n"@, " Mb\n"@);
    lemma_shows_extend("\n*timestamp*: "@ + time + "\n"@ + "*temperature*: "@ + figures.temperature@ + " C\n"@ + "*humidity*: "@ + figures.humidity@ + "%\n"@ + "*co2*: "@ + figures.co2@ + " ppm\n"@ + "*pressure*: "@ + figures.pressure@ + " hPa\n"@ + "*database size*: "@ + figures.db_size@ + " Mb\n"@, "*temperature*: "@, figures.temperature@, " C\n"@, "            "@);
}

proof fn lemma_report_piece_6(time: Seq<char>, figures: ReportFigures)
    ensures
        shows_between(spec_report_text(time, figures), "*humidity*: "@, figures.humidity@, "%\n"@),
{
    lemma_shows("\n*timestamp*: "@ + time + "\n"@ + "*temperature*: "@ + figures.temperature@ + " C\n"@, "*humidity*: "@, figures.humidity@, "%\n"@);
    lemma_shows_extend("\n*timestamp*: "@ + time + "\n"@ + "*temperature*: "@ + figures.temperature@ + " C\n"@ + "*humidity*: "@ + figures.humidity@ + "%\n"@, "*humidity*: "@, figures.humidity@, "%\n"@, "*co2*: "@);
    lemma_shows_extend("\n*timestamp*: "@ + time + "\n"@ + "*temperature*: "@ + figures.temperature@ + " C\n"@ + "*humidity*: "@ + figures.humidity@ + "%\n"@ + "*co2*: "@, "*humidity*: "@, figures.humidity@, "%\n"@, figures.co2@);
    lemma_shows_extend("\n*timestamp*: "@ + time + "\n"@ + "*temperature*: "@ + figures.temperature@ + " C\n"@ + "*humidity*: "@ + figures.humidity@ + "%\n"@ + "*co2*: "@ + figures.co2@, "*humidity*: "@, figures.humidity@, "%\n"@, " ppm\n"@);
    lemma_shows_extend("\n*timestamp*: "@ + time + "\n"@ + "*temperature*: "@ + figures.temperature@ + " C\n"@ + "*humidity*: "@ + figures.humidity@ + "%\n"@ + "*co2*: "@ + figures.co2@ + " ppm\n"@, "*humidity*: "@, figures.humidity@, "%\n"@, "*pressure*: "@);
    lemma_shows_extend("\n*timestamp*: "@ + time + "\n"@ + "*temperature*: "@ + figures.temperature@ + " C\n"@ + "*humidity*: "@ + figures.humidity@ + "%\n"@ + "*co2*: "@ + figures.co2@ + " ppm\n"@ + "*pressure*: "@, "*humidity*: "@, figures.humidity@, "%\n"@, figures.pressure@);
    lemma_shows_extend("\n*timestamp*: "@ + time + "\n"@ + "*temperature*: "@ + figures.temperature@ + " C\n"@ + "*humidity*: "@ + figures.humidity@ + "%\n"@ + "*co2*: "@ + figures.co2@ + " ppm\n"@ + "*pressure*: "@ + figures.pressure@, "*humidity*: "@, figures.humidity@, "%\n"@, " hPa\n"@);
    lemma_shows_extend("\n*timestamp*: "@ + time + "\n"@ + "*temperature*: "@ + figures.temperature@ + " C\n"@ + "*humidity*: "@ + figures.humidity@ + "%\n"@ + "*co2*: "@ + figures.co2@ + " ppm\n"@ + "*pressure*: "@ + figures.pressure@ + " hPa\n"@, "*humidity*: "@, figures.humidity@, "%\n"@, "*database size*: "@);
    lemma_shows_extend("\n*timestamp*: "@ + time + "\n"@ + "*temperature*: "@ + figures.temperature@ + " C\n"@ + "*humidity*: "@ + figures.humidity@ + "%\n"@ + "*co2*: "@ + figures.co2@ + " ppm\n"@ + "*pressure*: "@ + figures.pressure@ + " hPa\n"@ + "*database size*: "@, "*humidity*: "@, figures.humidity@, "%\n"@, figures.db_size@);
    lemma_shows_extend("\n*timestamp*: "@ + time + "\n"@ + "*temperature*: "@ + figures.temperature@ + " C\n"@ + "*humidity*: "@ + figures.humidity@ + "%\n"@ + "*co2*: "@ + figures.co2@ + " ppm\n"@ + "*pressure*: "@ + figures.pressure@ + " hPa\n"@ + "*database size*: "@ + figures.db_size@, "*humidity*: "@, figures.humidity@, "%\n"@, " Mb\n"@);
    lemma_shows_extend("\n*timestamp*: "@ + time + "\n"@ + "*temperature*: "@ + figures.temperature@ + " C\n"@ + "*humidity*: "@ + figures.humidity@ + "%\n"@ + "*co2*: "@ + figures.co2@ + " ppm\n"@ + "*pressure*: "@ + figures.pressure@ + " hPa\n"@ + "*database size*: "@ + figures.db_size@ + " Mb\n"@, "*humidity*: "@, figures.humidity@, "%\n"@, "            "@);
}

proof fn lemma_report_piece_9(time: Seq<char>, figures: ReportFigures)
    ensures
        shows_between(spec_report_text(time, figures), "*co2*: "@, figures.co2@, " ppm\n"@),
{
    lemma_shows("\n*timestamp*: "@ + time + "\n"@ + "*temperature*: "@ + figures.temperature@ + " C\n"@ + "*humidity*: "@ + figures.humidity@ + "%\n"@, "*co2*: "@, figures.co2@, " ppm\n"@);
    lemma_shows_extend("\n*timestamp*: "@ + time + "\n"@ + "*temperature*: "@ + figures.temperature@ + " C\n"@ + "*humidity*: "@ + figures.humidity@ + "%\n"@ + "*co2*: "@ + figures.co2@ + " ppm\n"@, "*co2*: "@, figures.co2@, " ppm\n"@, "*pressure*: "@);
    lemma_shows_extend("\n*timestamp*: "@ + time + "\n"@ + "*temperature*: "@ + figures.temperature@ + " C\n"@ + "*humidity*: "@ + figures.humidity@ + "%\n"@ + "*co2*: "@ + figures.co2@ + " ppm\n"@ + "*pressure*: "@, "*co2*: "@, figures.co2@, " ppm\n"@, figures.pressure@);
    lemma_shows_extend("\n*timestamp*: "@ + time + "\n"@ + "*temperature*: "@ + figures.temperature@ + " C\n"@ + "*humidity*: "@ + figures.humidity@ + "%\n"@ + "*co2*: "@ + figures.co2@ + " ppm\n"@ + "*pressure*: "@ + figures.pressure@, "*co2*: "@, figures.co2@, " ppm\n"@, " hPa\n"@);
    lemma_shows_extend("\n*timestamp*: "@ + time + "\n"@ + "*temperature*: "@ + figures.temperature@ + " C\n"@ + "*humidity*: "@ + figures.humidity@ + "%\n"@ + "*co2*: "@ + figures.co2@ + " ppm\n"@ + "*pressure*: "@ + figures.pressure@ + " hPa\n"@, "*co2*: "@, figures.co2@, " ppm\n"@, "*database size*: "@);
    lemma_shows_extend("\n*timestamp*: "@ + time + "\n"@ + "*temperature*: "@ + figures.temperature@ + " C\n"@ + "*humidity*: "@ + figures.humidity@ + "%\n"@ + "*co2*: "@ + figures.co2@ + " ppm\n"@ + "*pressure*: "@ + figures.pressure@ + " hPa\n"@ + "*database size*: "@, "*co2*: "@, figures.co2@, " ppm\n"@, figures.db_size@);
    lemma_shows_extend("\n*timestamp*: "@ + time + "\n"@ + "*temperature*: "@ + figures.temperature@ + " C\n"@ + "*humidity*: "@ + figures.humidity@ + "%\n"@ + "*co2*: "@ + figures.co2@ + " ppm\n"@ + "*pressure*: "@ + figures.pressure@ + " hPa\n"@ + "*database size*: "@ + figures.db_size@, "*co2*: "@, figures.co2@, " ppm\n"@, " Mb\n"@);
    lemma_shows_extend("\n*timestamp*: "@ + time + "\n"@ + "*temperature*: "@ + figures.temperature@ + " C\n"@ + "*humidity*: "@ + figures.humidity@ + "%\n"@ + "*co2*: "@ + figures.co2@ + " ppm\n"@ + "*pressure*: "@ + figures.pressure@ + " hPa\n"@ + "*database size*: "@ + figures.db_size@ + " Mb\n"@, "*co2*: "@, figures.co2@, " ppm\n"@, "            "@);
}

proof fn lemma_report_piece_12(time: Seq<char>, figures: ReportFigures)
    ensures
        shows_between(spec_report_text(time, figures), "*pressure*: "@, figures.pressure@, " hPa\n"@),
{
    lemma_shows("\n*timestamp*: "@ + time + "\n"@ + "*temperature*: "@ + figures.temperature@ + " C\n"@ + "*humidity*: "@ + figures.humidity@ + "%\n"@ + "*co2*: "@ + figures.co2@ + " ppm\n"@, "*pressure*: "@, figures.pressure@, " hPa\n"@);
    lemma_shows_extend("\n*timestamp*: "@ + time + "\n"@ + "*temperature*: "@ + figures.temperature@ + " C\n"@ + "*humidity*: "@ + figures.humidity@ + "%\n"@ + "*co2*: "@ + figures.co2@ + " ppm\n"@ + "*pressure*: "@ + figures.pressure@ + " hPa\n"@, "*pressure*: "@, figures.pressure@, " hPa\n"@, "*database size*: "@);
    lemma_shows_extend("\n*timestamp*: "@ + time + "\n"@ + "*temperature*: "@ + figures.temperature@ + " C\n"@ + "*humidity*: "@ + figures.humidity@ + "%\n"@ + "*co2*: "@ + figures.co2@ + " ppm\n"@ + "*pressure*: "@ + figures.pressure@ + " hPa\n"@ + "*database size*: "@, "*pressure*: "@, figures.pressure@, " hPa\n"@, figures.db_size@);
    lemma_shows_extend("\n*timestamp*: "@ + time + "\n"@ + "*temperature*: "@ + figures.temperature@ + " C\n"@ + "*humidity*: "@ + figures.humidity@ + "%\n"@ + "*co2*: "@ + figures.co2@ + " ppm\n"@ + "*pressure*: "@ + figures.pressure@ + " hPa\n"@ + "*database size*: "@ + figures.db_size@, "*pressure*: "@, figures.pressure@, " hPa\n"@, " Mb\n"@);
    lemma_shows_extend("\n*timestamp*: "@ + time + "\n"@ + "*temperature*: "@ + figures.temperature@ + " C\n"@ + "*humidity*: "@ + figures.humidity@ + "%\n"@ + "*co2*: "@ + figures.co2@ + " ppm\n"@ + "*pressure*: "@ + figures.pressure@ + " hPa\n"@ + "*database size*: "@ + figures.db_size@ + " Mb\n"@, "*pressure*: "@, figures.pressure@, " hPa\n"@, "            "@);
}

proof fn lemma_report_piece_15(time: Seq<char>, figures: ReportFigures)
    ensures
        shows_between(spec_report_text(time, figures), "*database size*: "@, figures.db_size@, " Mb\n"@),
{
    lemma_shows("\n*timestamp*: "@ + time + "\n"@ + "*temperature*: "@ + figures.temperature@ + " C\n"@ + "*humidity*: "@ + figures.humidity@ + "%\n"@ + "*co2*: "@ + figures.co2@ + " ppm\n"@ + "*pressure*: "@ + figures.pressure@ + " hPa\n"@, "*database size*: "@, figures.db_size@, " Mb\n"@);
    lemma_shows_extend("\n*timestamp*: "@ + time + "\n"@ + "*temperature*: "@ + figures.temperature@ + " C\n"@ + "*humidity*: "@ + figures.humidity@ + "%\n"@ + "*co2*: "@ + figures.co2@ + " ppm\n"@ + "*pressure*: "@ + figures.pressure@ + " hPa\n"@ + "*database size*: "@ + figures.db_size@ + " Mb\n"@, "*database size*: "@, figures.db_size@, " Mb\n"@, "            "@);
}

/// The sensors report shows every figure as it was given, each after its
/// label: the local time, temperature, humidity, co2, pressure and database
/// size.
pub proof fn law_report_shows_figures(time: Seq<char>, figures: ReportFigures)
    ensures
        shows_between(spec_report_text(time, figures), "\n*timestamp*: "@, time, "\n"@),
        shows_between(
            spec_report_text(time, figures),
            "*temperature*: "@,
            figures.temperature@,
            " C\n"@,
        ),
        shows_between(spec_report_text(time, figures), "*humidity*: "@, figures.humidity@, "%\n"@),
        shows_between(spec_report_text(time, figures), "*co2*: "@, figures.co2@, " ppm\n"@),
        shows_between(
            spec_report_text(time, figures),
            "*pressure*: "@,
            figures.pressure@,
            " hPa\n"@,
        ),
        shows_between(
            spec_report_text(time, figures),
            "*database size*: "@,
            figures.db_size@,
            " Mb\n"@,
        ),
{
    lemma_report_piece_0(time, figures);
    lemma_report_piece_3(time, figures);
    lemma_report_piece_6(time, figures);
    lemma_report_piece_9(time, figures);
    lemma_report_piece_12(time, figures);
    lemma_report_piece_15(time, figures);
}

/// Two reports that differ only in the co2 figure are equal only when the co2
/// figures are.
pub proof fn law_report_co2_determined(time: Seq<char>, f1: ReportFigures, f2: ReportFigures)
    requires
        f1.temperature@ == f2.temperature@,
        f1.humidity@ == f2.humidity@,
        f1.pressure@ == f2.pressure@,
        f1.db_size@ == f2.db_size@,
        spec_report_text(time, f1) == spec_report_text(time, f2),
    ensures
        f1.co2@ == f2.co2@,
{
    let a = "\n*timestamp*: "@ + time + "\n"@ + "*temperature*: "@ + f1.temperature@ + " C\n"@
        + "*humidity*: "@ + f1.humidity@ + "%\n"@ + "*co2*: "@;
    let r1 = spec_report_text(time, f1);
    let r2 = spec_report_text(time, f2);
    let n = a.len() as int;
    let rest = " ppm\n"@ + "*pressure*: "@ + f1.pressure@ + " hPa\n"@ + "*database size*: "@
        + f1.db_size@ + " Mb\n"@ + "            "@;
    assert(r1.len() == a.len() + f1.co2@.len() + rest.len());
    assert(r2.len() == a.len() + f2.co2@.len() + rest.len());
    assert(f1.co2@.len() == f2.co2@.len());
    assert forall|k: int| 0 <= k < f1.co2@.len() implies f1.co2@[k] == f2.co2@[k] by {
        assert(r1[n + k] == f1.co2@[k]);
        assert(r2[n + k] == f2.co2@[k]);
    }
    assert(f1.co2@ =~= f2.co2@);
}

/// Each quantity is read from its own field of the row, and a missing reading
/// is charted as `0.0` (bit pattern `0`), a present one as it is.
pub proof fn law_readings_by_quantity(row: SensorsData, v: u64)
    ensures
        reading_of(row, Quantity::Co2) == row.co2,
        reading_of(row, Quantity::Humidity) == row.humidity,
        reading_of(row, Quantity::Pressure) == row.pressure,
        reading_of(row, Quantity::Temperature) == row.temperature,
        charted_value(None) == 0u64,
        charted_value(Some(v)) == v,
{
}

/// The value charted for an optional reading.
pub open spec fn value_or_zero(reading: Option<u64>) -> u64 {
    match reading {
        Some(v) => v,
        None => 0u64,
    }
}

/// The history charts, in order, are of pressure, humidity, co2 and
/// temperature, each titled and filed for its quantity, sent to the update's
/// chat, with one point per row: the row's time and its reading of that
/// quantity, `0.0` where the row has none.
pub proof fn law_history_chart_contents(
    post: crate::handlers::ChartPost,
    k: int,
    update: Update,
    values: Seq<SensorsData>,
)
    requires
        0 <= k < 4,
        is_history_chart(post, k, update, values),
    ensures
        decimal_value(post.chat_id@) == update.message.chat.id,
        post.times.len() == values.len(),
        post.values.len() == values.len(),
        forall|i: int| 0 <= i < values.len() ==> #[trigger] post.times[i] == values[i].timestamp,
        k == 0 ==> post.title@ == "Pressure, hPa"@ && post.filename@ == "pressure.png"@ && forall|
            i: int,
        | 0 <= i < values.len() ==> #[trigger] post.values[i] == value_or_zero(values[i].pressure),
        k == 1 ==> post.title@ == "Humidity, %"@ && post.filename@ == "humidity.png"@ && forall|
            i: int,
        | 0 <= i < values.len() ==> #[trigger] post.values[i] == value_or_zero(values[i].humidity),
        k == 2 ==> post.title@ == "co2, ppm"@ && post.filename@ == "co2.png"@ && forall|i: int|
            0 <= i < values.len() ==> #[trigger] post.values[i] == value_or_zero(values[i].co2),
        k == 3 ==> post.title@ == "Temperature, C"@ && post.filename@ == "temperature.png"@
            && forall|i: int|
            0 <= i < values.len() ==> #[trigger] post.values[i] == value_or_zero(
                values[i].temperature,
            ),
{
    law_decimal_round_trip(update.message.chat.id as nat);
    assert forall|i: int| 0 <= i < values.len() implies #[trigger] post.values[i]
        == charted_value(reading_of(values[i], crate::handlers::chart_quantity(k))) by {}
}

/// The answers go to the chat the update came from: the chat id text reads
/// back as the chat's id.
pub proof fn law_chat_id_reads_back(update: Update)
    ensures
        decimal_value(spec_chat_id(update)) == update.message.chat.id,
        forall|i: int|
            0 <= i < spec_chat_id(update).len() ==> '0' <= #[trigger] spec_chat_id(update)[i] <= '9',
{
    law_decimal_round_trip(update.message.chat.id as nat);
}

/// The `/chat_id` answer is the fixed sentence with the chat's id between
/// backticks: the digits between them read back as the id, for every id.
pub proof fn law_chat_id_text(update: Update)
    ensures
        chat_id_text(update).len() > "Your `chat_id` is: `"@.len() + 1,
        chat_id_text(update).subrange(0, "Your `chat_id` is: `"@.len() as int)
            == "Your `chat_id` is: `"@,
        chat_id_text(update).last() == '`',
        decimal_value(
            chat_id_text(update).subrange(
                "Your `chat_id` is: `"@.len() as int,
                chat_id_text(update).len() - 1,
            ),
        ) == update.message.chat.id,
{
    law_decimal_round_trip(update.message.chat.id as nat);
    reveal_strlit("`");
    let p = "Your `chat_id` is: `"@;
    let t = chat_id_text(update);
    let d = spec_decimal(update.message.chat.id as nat);
    assert(t.subrange(0, p.len() as int) =~= p);
    assert(t.subrange(p.len() as int, t.len() - 1) =~= d);
}

/// Only the six command texts name a command, each its own; every other text
/// is an unknown command.
pub proof fn law_command_only_exact(t: Seq<char>)
    ensures
        (spec_command_of(t) == Command::Erase) == (t == "/erase"@),
        (spec_command_of(t) == Command::Sensors) == (t == "/sensors"@),
        (spec_command_of(t) == Command::SensorsHistogramAll) == (t == "/sensors_histogram_all"@),
        (spec_command_of(t) == Command::SensorsHistogramThreeDays) == (t
            == "/sensors_histogram_3_days"@),
        (spec_command_of(t) == Command::Start) == (t == "/start"@),
        (spec_command_of(t) == Command::ChatId) == (t == "/chat_id"@),
        (spec_command_of(t) == Command::Unknown) == (t != "/erase"@ && t != "/sensors"@ && t
            != "/sensors_histogram_all"@ && t != "/sensors_histogram_3_days"@ && t != "/start"@
            && t != "/chat_id"@),
{
    reveal_strlit("/erase");
    reveal_strlit("/sensors");
    reveal_strlit("/sensors_histogram_all");
    reveal_strlit("/sensors_histogram_3_days");
    reveal_strlit("/start");
    reveal_strlit("/chat_id");
    assert("/erase"@.len() == 6);
    assert("/sensors"@.len() == 8);
    assert("/sensors_histogram_all"@.len() == 22);
    assert("/sensors_histogram_3_days"@.len() == 25);
    assert("/start"@.len() == 6);
    assert("/chat_id"@.len() == 8);
    assert("/erase"@[1] != "/start"@[1]);
    assert("/sensors"@[1] != "/chat_id"@[1]);
}

/// The index page of no rows is the header alone.
pub proof fn law_index_page_empty(db_size: Seq<char>)
    ensures
        spec_index_page(db_size, seq![]) == "Db size: "@ + db_size + " Mb; Sensors:\n"@,
{
    assert(seq![].map_values(|row: SensorsText| spec_index_line(row)) =~= Seq::<Seq<char>>::empty());
    assert("Db size: "@ + db_size + " Mb; Sensors:\n"@ + Seq::<char>::empty() =~= "Db size: "@
        + db_size + " Mb; Sensors:\n"@);
}

/// One more row adds its line to the page: right after the header for the
/// first row, after a newline for the others.
pub proof fn law_index_page_push(db_size: Seq<char>, rows: Seq<SensorsText>, row: SensorsText)
    ensures
        rows.len() == 0 ==> spec_index_page(db_size, rows.push(row)) == spec_index_page(
            db_size,
            rows,
        ) + spec_index_line(row),
        rows.len() > 0 ==> spec_index_page(db_size, rows.push(row)) == spec_index_page(
            db_size,
            rows,
        ) + "\n"@ + spec_index_line(row),
{
    let f = |r: SensorsText| spec_index_line(r);
    let lines = rows.map_values(f);
    let lines2 = rows.push(row).map_values(f);
    assert(lines2 =~= lines.push(spec_index_line(row)));
    assert(lines2.drop_last() =~= lines);
    if rows.len() == 0 {
        assert(lines =~= Seq::<Seq<char>>::empty());
        assert(spec_join(lines2, "\n"@) == spec_index_line(row));
        assert(spec_join(lines, "\n"@) =~= Seq::<char>::empty());
    }
}

/// A line of the index page starts with the row's timestamp and shows each
/// reading after `, `, as written, or `NULL` where there is none.
pub proof fn law_index_line_fields(row: SensorsText)
    ensures
        spec_index_line(row) == crate::text::spec_decimal_int(row.timestamp as int) + ", "@
            + text_or_null(row.co2) + ", "@ + text_or_null(row.humidity) + ", "@ + text_or_null(
            row.pressure,
        ) + ", "@ + text_or_null(row.temperature),
{
}

/// The text of an optional reading on the page.
pub open spec fn text_or_null(reading: Option<String>) -> Seq<char> {
    match reading {
        Some(s) => s@,
        None => "NULL"@,
    }
}

/// The number that a signed decimal text denotes.
pub open spec fn decimal_int_value(s: Seq<char>) -> int {
    if s.len() > 0 && s[0] == '-' {
        -(decimal_value(s.drop_first()) as int)
    } else {
        decimal_value(s) as int
    }
}

/// A signed decimal notation reads back as its number, and starts with a digit
/// or, for a negative number, with `-`.
pub proof fn law_decimal_int_round_trip(n: int)
    ensures
        decimal_int_value(spec_decimal_int(n)) == n,
        spec_decimal_int(n).len() > 0,
        (spec_decimal_int(n)[0] == '-') == (n < 0),
{
    if n < 0 {
        law_decimal_round_trip((-n) as nat);
        assert(spec_decimal_int(n).drop_first() =~= spec_decimal((-n) as nat));
    } else {
        law_decimal_round_trip(n as nat);
        assert('0' <= spec_decimal(n as nat)[0] <= '9');
    }
}

/// A row is stored with five texts: its timestamp, which reads back as the
/// timestamp, then co2, humidity, pressure and temperature as written, or
/// `NULL` where there is none.
pub proof fn law_insert_params_fields(row: SensorsText)
    ensures
        spec_insert_params(row).len() == 5,
        decimal_int_value(spec_insert_params(row)[0]) == row.timestamp,
        spec_insert_params(row)[1] == text_or_null(row.co2),
        spec_insert_params(row)[2] == text_or_null(row.humidity),
        spec_insert_params(row)[3] == text_or_null(row.pressure),
        spec_insert_params(row)[4] == text_or_null(row.temperature),
{
    law_decimal_int_round_trip(row.timestamp as int);
}

/// The erase statement deletes the rows whose timestamp is below the time
/// thirty days (2592000 seconds) before `now_secs`.
pub proof fn law_erase_cutoff(now_secs: nat)
    requires
        now_secs >= 2592000,
    ensures
        spec_erase_statement(now_secs).subrange(
            0,
            " DELETE FROM sensors WHERE timestamp < "@.len() as int,
        ) == " DELETE FROM sensors WHERE timestamp < "@,
        decimal_value(
            spec_erase_statement(now_secs).skip(" DELETE FROM sensors WHERE timestamp < "@.len() as int),
        ) + 2592000 == now_secs,
{
    let p = " DELETE FROM sensors WHERE timestamp < "@;
    let r = spec_erase_statement(now_secs);
    law_decimal_round_trip((now_secs - 2592000) as nat);
    assert(r.subrange(0, p.len() as int) =~= p);
    assert(r.skip(p.len() as int) =~= spec_decimal((now_secs - 2592000) as nat));
}

/// A Bot API address reads back as the API prefix, the bot's token and the
/// method after a `/`.
pub proof fn law_api_url_parts(token: Seq<char>, method: Seq<char>)
    ensures
        ({
            let u = spec_api_url(token, method);
            let p = "https://api.telegram.org/bot"@;
            let n: int = p.len() as int;
            let t: int = n + token.len();
            &&& u.subrange(0, n) == p
            &&& u.subrange(n, t) == token
            &&& u.skip(t) == "/"@ + method
        }),
{
    let u = spec_api_url(token, method);
    let p = "https://api.telegram.org/bot"@;
    let n: int = p.len() as int;
    let t: int = n + token.len();
    assert(u.subrange(0, n) =~= p);
    assert(u.subrange(n, t) =~= token);
    assert(u.skip(t) =~= "/"@ + method);
}

/// A `sendMessage` body carries the chat id and the text unchanged, each in
/// its place between the fixed parts of the JSON object.
pub proof fn law_message_body_parts(chat_id: Seq<char>, text: Seq<char>)
    ensures
        ({
            let b = spec_message_body(chat_id, text);
            let p = "{ \"parse_mode\":\"MarkdownV2\", \"chat_id\":"@;
            let m = ", \"text\":\""@;
            let e = "\" }"@;
            let i1: int = p.len() as int;
            let i2: int = i1 + chat_id.len();
            let i3: int = i2 + m.len();
            let i4: int = i3 + text.len();
            &&& b.len() == i4 + e.len()
            &&& b.subrange(0, i1) == p
            &&& b.subrange(i1, i2) == chat_id
            &&& b.subrange(i2, i3) == m
            &&& b.subrange(i3, i4) == text
            &&& b.skip(i4) == e
        }),
{
    let b = spec_message_body(chat_id, text);
    let p = "{ \"parse_mode\":\"MarkdownV2\", \"chat_id\":"@;
    let m = ", \"text\":\""@;
    let e = "\" }"@;
    let i1: int = p.len() as int;
    let i2: int = i1 + chat_id.len();
    let i3: int = i2 + m.len();
    let i4: int = i3 + text.len();
    assert(b.subrange(0, i1) =~= p);
    assert(b.subrange(i1, i2) =~= chat_id);
    assert(b.subrange(i2, i3) =~= m);
    assert(b.subrange(i3, i4) =~= text);
    assert(b.skip(i4) =~= e);
}

/// `to_str` gives the text of a present value and `NULL` for a missing one.
pub proof fn law_to_str(option: Option<String>)
    ensures
        spec_to_str(option) == text_or_null(option),
{
}

} // verus!
