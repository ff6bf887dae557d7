//! Telegram Bot API: the update that the webhook receives, MarkdownV2 escaping,
//! and the requests that the bot sends.

use vstd::prelude::*;
use vstd::string::StringExecFns;
use crate::text::push_char;

verus! {

/// The chat an update comes from.
#[derive(Debug, Clone)]
pub struct Chat {
    pub id: u64,
}

/// A message sent to the bot.
#[derive(Debug, Clone)]
pub struct Message {
    pub text: String,
    pub chat: Chat,
}

/// An update delivered to the webhook.
#[derive(Debug, Clone)]
pub struct Update {
    pub message: Message,
}

/// An HTTP POST with a JSON body.
pub struct JsonPost {
    pub url: String,
    pub body: String,
}

/// A multipart upload of a photo to a chat.
pub struct PhotoUpload {
    pub url: String,
    /// The `chat_id` text field of the form.
    pub chat_id: String,
    /// The path of the file sent as the `photo` field of the form.
    pub photo_path: String,
}

/// The Bot API address of method `method` for the bot with `token`.
pub open spec fn spec_api_url(token: Seq<char>, method: Seq<char>) -> Seq<char> {
    "https://api.telegram.org/bot"@ + token + "/"@ + method
}

/// The body of a `sendMessage` request: the text is inserted as it is, between
/// double quotes, and parsed by Telegram as MarkdownV2.
pub open spec fn spec_message_body(chat_id: Seq<char>, text: Seq<char>) -> Seq<char> {
    "{ \"parse_mode\":\"MarkdownV2\", \"chat_id\":"@ + chat_id + ", \"text\":\""@ + text
        + "\" }"@
}

fn api_url(token: &str, method: &str) -> (r: String)
    ensures
        r@ == spec_api_url(token@, method@),
{
    let mut url = String::from_str("https://api.telegram.org/bot");
    url.append(token);
    url.append("/");
    url.append(method);
    url
}

/// The request that sends `text` to the chat `chat_id`.
pub fn send_message_request(token: &str, chat_id: &str, text: &str) -> (r: JsonPost)
    ensures
        r.url@ == spec_api_url(token@, "sendMessage"@),
        r.body@ == spec_message_body(chat_id@, text@),
{
    let url = api_url(token, "sendMessage");
    let mut body = String::from_str("{ \"parse_mode\":\"MarkdownV2\", \"chat_id\":");
    body.append(chat_id);
    body.append(", \"text\":\"");
    body.append(text);
    body.append("\" }");
    JsonPost { url, body }
}

/// The upload that sends the image file at `filename` to the chat `chat_id`.
pub fn send_image_request(token: &str, chat_id: &str, filename: &str) -> (r: PhotoUpload)
    ensures
        r.url@ == spec_api_url(token@, "sendPhoto"@),
        r.chat_id@ == chat_id@,
        r.photo_path@ == filename@,
{
    PhotoUpload {
        url: api_url(token, "sendPhoto"),
        chat_id: String::from_str(chat_id),
        photo_path: String::from_str(filename),
    }
}

/// The characters that `escape_tg` escapes.
pub open spec fn is_tg_reserved(c: char) -> bool {
    c == '-' || c == '.' || c == '+' || c == '(' || c == ')'
}

/// The characters escaped in the sensors report.
pub open spec fn is_report_reserved(c: char) -> bool {
    c == '-' || c == '.' || c == '+'
}

/// One character escaped: a reserved character is preceded by two backslashes
/// (one backslash once the JSON string of the request body is decoded).
pub open spec fn escape_one(c: char, reserved: bool) -> Seq<char> {
    if reserved {
        seq!['\\', '\\', c]
    } else {
        seq![c]
    }
}

/// `s` with every character `c` for which `reserved(c)` holds escaped.
pub open spec fn spec_escape(s: Seq<char>, reserved: spec_fn(char) -> bool) -> Seq<char>
    decreases s.len(),
{
    if s.len() == 0 {
        seq![]
    } else {
        spec_escape(s.drop_last(), reserved) + escape_one(s.last(), reserved(s.last()))
    }
}

/// What `escape_tg` gives for `s`.
pub open spec fn spec_escape_tg(s: Seq<char>) -> Seq<char> {
    spec_escape(s, |c: char| is_tg_reserved(c))
}

/// What the sensors report escaping gives for `s`.
pub open spec fn spec_escape_report(s: Seq<char>) -> Seq<char> {
    spec_escape(s, |c: char| is_report_reserved(c))
}

fn reserved_in(c: char, full: bool) -> (r: bool)
    ensures
        r == if full { is_tg_reserved(c) } else { is_report_reserved(c) },
{
    c == '-' || c == '.' || c == '+' || (full && (c == '(' || c == ')'))
}

/// Escapes `s`: with `full`, the characters of `is_tg_reserved`, else those of
/// `is_report_reserved`.
pub(crate) fn escape_reserved(s: &str, full: bool) -> (r: String)
    ensures
        full ==> r@ == spec_escape_tg(s@),
        !full ==> r@ == spec_escape_report(s@),
{
    let ghost reserved = if full {
        |c: char| is_tg_reserved(c)
    } else {
        |c: char| is_report_reserved(c)
    };
    let mut out = String::new();
    broadcast use vstd::string::group_string_axioms;
    for c in it: s.chars()
        invariant
            it.seq() == s@,
            out@ == spec_escape(s@.take(it.index() as int), reserved),
            forall|x: char| #[trigger] reserved(x) == if full { is_tg_reserved(x) } else { is_report_reserved(x) },
    {
        let ghost i = it.index();
        assert(s@.take(i + 1).drop_last() =~= s@.take(i as int));
        if reserved_in(c, full) {
            push_char(&mut out, '\\');
            push_char(&mut out, '\\');
        }
        push_char(&mut out, c);
        assert(out@ =~= spec_escape(s@.take(i + 1), reserved));
    }
    assert(s@.take(s@.len() as int) =~= s@);
    out
}

proof fn lemma_escape_injective(a: Seq<char>, b: Seq<char>, reserved: spec_fn(char) -> bool)
    requires
        spec_escape(a, reserved) == spec_escape(b, reserved),
    ensures
        a == b,
    decreases a.len(),
{
    let ea = spec_escape(a, reserved);
    if a.len() == 0 {
        if b.len() > 0 {
            assert(spec_escape(b, reserved).len() > 0);
        }
        assert(b.len() == 0);
        assert(a =~= b);
    } else {
        if b.len() == 0 {
            assert(ea.len() > 0);
        }
        let pa = spec_escape(a.drop_last(), reserved);
        let pb = spec_escape(b.drop_last(), reserved);
        let la = escape_one(a.last(), reserved(a.last()));
        let lb = escape_one(b.last(), reserved(b.last()));
        assert(ea == pa + la);
        assert(ea == pb + lb);
        assert(ea.last() == la.last());
        assert(ea.last() == lb.last());
        assert(a.last() == b.last());
        assert(la == lb);
        assert(pa =~= ea.subrange(0, ea.len() - la.len()));
        assert(pb =~= ea.subrange(0, ea.len() - lb.len()));
        lemma_escape_injective(a.drop_last(), b.drop_last(), reserved);
        assert(a =~= a.drop_last().push(a.last()));
        assert(b =~= b.drop_last().push(b.last()));
    }
}

proof fn lemma_escape_plain(s: Seq<char>, reserved: spec_fn(char) -> bool)
    requires
        forall|i: int| 0 <= i < s.len() ==> !reserved(#[trigger] s[i]),
    ensures
        spec_escape(s, reserved) == s,
    decreases s.len(),
{
    if s.len() > 0 {
        lemma_escape_plain(s.drop_last(), reserved);
        assert(s =~= s.drop_last().push(s.last()));
    }
}

/// Escaping loses nothing: two texts that escape to the same text are equal.
pub proof fn law_escape_tg_injective(a: Seq<char>, b: Seq<char>)
    requires
        spec_escape_tg(a) == spec_escape_tg(b),
    ensures
        a == b,
{
    lemma_escape_injective(a, b, |c: char| is_tg_reserved(c));
}

/// The sensors report escaping loses nothing either.
pub proof fn law_escape_report_injective(a: Seq<char>, b: Seq<char>)
    requires
        spec_escape_report(a) == spec_escape_report(b),
    ensures
        a == b,
{
    lemma_escape_injective(a, b, |c: char| is_report_reserved(c));
}

/// A text without reserved characters is left as it is.
pub proof fn law_escape_tg_plain(s: Seq<char>)
    requires
        forall|i: int| 0 <= i < s.len() ==> !is_tg_reserved(#[trigger] s[i]),
    ensures
        spec_escape_tg(s) == s,
{
    lemma_escape_plain(s, |c: char| is_tg_reserved(c));
}

proof fn lemma_escape_concat(a: Seq<char>, b: Seq<char>, reserved: spec_fn(char) -> bool)
    ensures
        spec_escape(a + b, reserved) == spec_escape(a, reserved) + spec_escape(b, reserved),
    decreases b.len(),
{
    if b.len() == 0 {
        assert(a + b =~= a);
        assert(spec_escape(b, reserved) =~= seq![]);
        assert(spec_escape(a, reserved) + spec_escape(b, reserved) =~= spec_escape(a, reserved));
    } else {
        lemma_escape_concat(a, b.drop_last(), reserved);
        assert((a + b).drop_last() =~= a + b.drop_last());
        assert((a + b).last() == b.last());
    }
}

proof fn lemma_escape_single(c: char, reserved: spec_fn(char) -> bool)
    ensures
        spec_escape(seq![c], reserved) == escape_one(c, reserved(c)),
        spec_escape(seq![], reserved) == Seq::<char>::empty(),
{
    assert(seq![c].drop_last() =~= Seq::<char>::empty());
    assert(seq![c].last() == c);
    assert(spec_escape(Seq::<char>::empty(), reserved) =~= Seq::<char>::empty());
    assert(spec_escape(seq![c].drop_last(), reserved) =~= Seq::<char>::empty());
    assert(spec_escape(seq![c], reserved) =~= escape_one(c, reserved(c)));
}

/// `escape_tg` precedes each of `-`, `.`, `+`, `(`, `)` with two backslashes
/// and keeps every other character; a text is escaped character by character.
pub proof fn law_escape_tg_chars(c: char, a: Seq<char>, b: Seq<char>)
    ensures
        (c == '-' || c == '.' || c == '+' || c == '(' || c == ')') ==> spec_escape_tg(seq![c])
            == seq!['\\', '\\', c],
        !(c == '-' || c == '.' || c == '+' || c == '(' || c == ')') ==> spec_escape_tg(seq![c])
            == seq![c],
        spec_escape_tg(seq![]) == Seq::<char>::empty(),
        spec_escape_tg(a + b) == spec_escape_tg(a) + spec_escape_tg(b),
{
    lemma_escape_single(c, |x: char| is_tg_reserved(x));
    lemma_escape_concat(a, b, |x: char| is_tg_reserved(x));
}

/// The report escaping precedes each of `-`, `.`, `+` with two backslashes
/// and keeps every other character, parentheses included; a text is escaped
/// character by character.
pub proof fn law_escape_report_chars(c: char, a: Seq<char>, b: Seq<char>)
    ensures
        (c == '-' || c == '.' || c == '+') ==> spec_escape_report(seq![c]) == seq!['\\', '\\', c],
        !(c == '-' || c == '.' || c == '+') ==> spec_escape_report(seq![c]) == seq![c],
        spec_escape_report(seq![]) == Seq::<char>::empty(),
        spec_escape_report(a + b) == spec_escape_report(a) + spec_escape_report(b),
{
    lemma_escape_single(c, |x: char| is_report_reserved(x));
    lemma_escape_concat(a, b, |x: char| is_report_reserved(x));
}

/// Escaping text made of two parts escapes each part on its own.
pub proof fn law_escape_tg_concat(a: Seq<char>, b: Seq<char>)
    ensures
        spec_escape_tg(a + b) == spec_escape_tg(a) + spec_escape_tg(b),
{
    lemma_escape_concat(a, b, |c: char| is_tg_reserved(c));
}

/// The report escaping of text made of two parts escapes each part on its own.
pub proof fn law_escape_report_concat(a: Seq<char>, b: Seq<char>)
    ensures
        spec_escape_report(a + b) == spec_escape_report(a) + spec_escape_report(b),
{
    lemma_escape_concat(a, b, |c: char| is_report_reserved(c));
}

/// Escaping of text for Telegram's MarkdownV2 parse mode.
pub trait TgEscapable {
    fn escape_tg(&self) -> String;
}

impl TgEscapable for String {
    /// Precedes each of `-`, `.`, `+`, `(` and `)` with two backslashes.
    fn escape_tg(&self) -> (r: String)
        ensures
            r@ == spec_escape_tg(self@),
    {
        escape_reserved(self.as_str(), true)
    }
}

} // verus!
