//! CSV exports of the transcript and of the keyboard log, and the keyboard
//! recorder itself.

use vstd::prelude::*;
use vstd::string::{StrSliceExecFns, StringExecFns};
use crate::text::chars_of;
use crate::clock::{current_timestamp_string, is_clock_reading};
use crate::audit_line::{LogValue, is_field};

verus! {

/// What one character becomes inside a quoted CSV field: a quote is doubled.
pub open spec fn csv_piece(c: char) -> Seq<char> {
    if c == '"' {
        seq!['"', '"']
    } else {
        seq![c]
    }
}

/// `s` with every quote doubled (`s.replace('"', "\"\"")`).
pub open spec fn double_quotes(s: Seq<char>) -> Seq<char>
    decreases s.len(),
{
    if s.len() == 0 {
        Seq::empty()
    } else {
        double_quotes(s.drop_last()) + csv_piece(s.last())
    }
}

/// `s` as a quoted CSV field.
pub open spec fn csv_field(s: Seq<char>) -> Seq<char> {
    seq!['"'] + double_quotes(s) + seq!['"']
}

/// The inverse reading: a doubled quote stands for one quote.
pub open spec fn undouble_quotes(s: Seq<char>) -> Seq<char>
    decreases s.len(),
{
    if s.len() == 0 {
        Seq::empty()
    } else if s.len() >= 2 && s[0] == '"' && s[1] == '"' {
        seq!['"'] + undouble_quotes(s.subrange(2, s.len() as int))
    } else {
        seq![s[0]] + undouble_quotes(s.drop_first())
    }
}

proof fn lemma_double_quotes_front(s: Seq<char>)
    requires
        s.len() > 0,
    ensures
        double_quotes(s) == csv_piece(s[0]) + double_quotes(s.drop_first()),
    decreases s.len(),
{
    if s.len() == 1 {
        assert(double_quotes(s.drop_last()) == Seq::<char>::empty());
        assert(double_quotes(s.drop_first()) == Seq::<char>::empty());
        assert(s.last() == s[0]);
        assert(double_quotes(s) == double_quotes(s.drop_last()) + csv_piece(s.last()));
        assert(double_quotes(s) =~= csv_piece(s[0]) + double_quotes(s.drop_first()));
    } else {
        lemma_double_quotes_front(s.drop_last());
        let m = s.drop_first().drop_last();
        assert(s.drop_last().drop_first() =~= m);
        assert(s.drop_last()[0] == s[0]);
        assert(s.drop_first().last() == s.last());
        assert(double_quotes(s) == double_quotes(s.drop_last()) + csv_piece(s.last()));
        assert(double_quotes(s.drop_first()) == double_quotes(m) + csv_piece(s.last()));
        assert(double_quotes(s) =~= csv_piece(s[0]) + double_quotes(s.drop_first()));
    }
}

/// Reading a field back gives the text that was written: undoubling the quotes of
/// an escaped text restores it.
pub proof fn law_csv_escape_roundtrip(s: Seq<char>)
    ensures
        undouble_quotes(double_quotes(s)) == s,
    decreases s.len(),
{
    if s.len() == 0 {
        assert(double_quotes(s) =~= Seq::<char>::empty());
    } else {
        lemma_double_quotes_front(s);
        let rest = double_quotes(s.drop_first());
        law_csv_escape_roundtrip(s.drop_first());
        let d = double_quotes(s);
        if s[0] == '"' {
            assert(d =~= seq!['"', '"'] + rest);
            assert(d.subrange(2, d.len() as int) =~= rest);
        } else {
            assert(d =~= seq![s[0]] + rest);
            assert(d.drop_first() =~= rest);
        }
        assert(s =~= seq![s[0]] + s.drop_first());
    }
}

/// Appends `s` as a quoted CSV field, with its quotes doubled.
pub fn push_csv_field(out: &mut String, s: &str)
    ensures
        final(out)@ == old(out)@ + csv_field(s@),
{
    let v = chars_of(s);
    out.push('"');
    let n = v.len();
    for i in 0..n
        invariant
            n == v@.len(),
            v@ == s@,
            out@ == old(out)@ + seq!['"'] + double_quotes(v@.subrange(0, i as int)),
    {
        proof {
            let pre = v@.subrange(0, i as int + 1);
            assert(pre.drop_last() =~= v@.subrange(0, i as int));
            assert(pre.last() == v@[i as int]);
        }
        if v[i] == '"' {
            out.push('"');
            out.push('"');
        } else {
            out.push(v[i]);
        }
        assert(out@ =~= old(out)@ + seq!['"'] + double_quotes(v@.subrange(0, i as int + 1)));
    }
    assert(v@.subrange(0, n as int) =~= s@);
    out.push('"');
    assert(out@ =~= old(out)@ + csv_field(s@));
}

/// One line of the chat export.
pub open spec fn chat_csv_line(row: (Seq<char>, Seq<char>, Seq<char>)) -> Seq<char> {
    csv_field(row.0) + seq![','] + csv_field(row.1) + seq![','] + csv_field(row.2) + seq!['\n']
}

/// The lines of the chat export, in order.
pub open spec fn chat_csv_lines(rows: Seq<(Seq<char>, Seq<char>, Seq<char>)>) -> Seq<char>
    decreases rows.len(),
{
    if rows.len() == 0 {
        Seq::empty()
    } else {
        chat_csv_lines(rows.drop_last()) + chat_csv_line(rows.last())
    }
}

/// The texts of export rows.
pub open spec fn row_texts(rows: Seq<(String, String, String)>) -> Seq<(Seq<char>, Seq<char>, Seq<char>)> {
    rows.map_values(|r: (String, String, String)| (r.0@, r.1@, r.2@))
}

/// The chat export in CSV: a header, then one line per row.
pub open spec fn chat_csv_text(rows: Seq<(Seq<char>, Seq<char>, Seq<char>)>) -> Seq<char> {
    "timestamp,from,content\n"@ + chat_csv_lines(rows)
}

/// The chat export in CSV.
pub fn chat_csv(rows: &Vec<(String, String, String)>) -> (csv: String)
    ensures
        csv@ == chat_csv_text(row_texts(rows@)),
{
    let mut csv = String::from_str("timestamp,from,content\n");
    let n = rows.len();
    for i in 0..n
        invariant
            n == rows@.len(),
            csv@ == "timestamp,from,content\n"@ + chat_csv_lines(
                row_texts(rows@.subrange(0, i as int)),
            ),
    {
        let ghost before = csv@;
        push_csv_field(&mut csv, rows[i].0.as_str());
        csv.push(',');
        push_csv_field(&mut csv, rows[i].1.as_str());
        csv.push(',');
        push_csv_field(&mut csv, rows[i].2.as_str());
        csv.push('\n');
        proof {
            let pre = row_texts(rows@.subrange(0, i as int + 1));
            assert(pre.drop_last() =~= row_texts(rows@.subrange(0, i as int)));
            assert(pre.last() == (rows@[i as int].0@, rows@[i as int].1@, rows@[i as int].2@));
            assert(csv@ =~= "timestamp,from,content\n"@ + chat_csv_lines(pre));
        }
    }
    assert(rows@.subrange(0, n as int) =~= rows@);
    csv
}

/// The object of one chat row in the JSON export, its fields in name order
/// (as a `serde_json` map orders them): `content`, `from`, `timestamp`.
pub open spec fn is_chat_item(fs: Seq<(&'static str, LogValue)>, row: (String, String, String)) -> bool {
    &&& fs.len() == 3
    &&& is_field(fs[0], "content"@, LogValue::Text(row.2))
    &&& is_field(fs[1], "from"@, LogValue::Text(row.1))
    &&& is_field(fs[2], "timestamp"@, LogValue::Text(row.0))
}

/// The chat export in JSON: an array with one object per row, in order.
pub fn chat_json_items(rows: &Vec<(String, String, String)>) -> (items: Vec<Vec<(&'static str, LogValue)>>)
    ensures
        items@.len() == rows@.len(),
        forall|i: int| 0 <= i < rows@.len() ==> is_chat_item(#[trigger] items@[i]@, rows@[i]),
{
    let mut items: Vec<Vec<(&'static str, LogValue)>> = Vec::new();
    let n = rows.len();
    for i in 0..n
        invariant
            n == rows@.len(),
            items@.len() == i,
            forall|j: int| 0 <= j < i ==> is_chat_item(#[trigger] items@[j]@, rows@[j]),
    {
        let mut fs: Vec<(&'static str, LogValue)> = Vec::new();
        fs.push(("content", LogValue::Text(rows[i].2.clone())));
        fs.push(("from", LogValue::Text(rows[i].1.clone())));
        fs.push(("timestamp", LogValue::Text(rows[i].0.clone())));
        items.push(fs);
    }
    items
}

/// The object of one keyboard entry in the JSON export, its fields in name
/// order: `stroke`, `timestamp`.
pub open spec fn is_key_item(fs: Seq<(&'static str, LogValue)>, entry: (String, String)) -> bool {
    &&& fs.len() == 2
    &&& is_field(fs[0], "stroke"@, LogValue::Text(entry.1))
    &&& is_field(fs[1], "timestamp"@, LogValue::Text(entry.0))
}

/// The keyboard export in JSON: an array with one object per entry, in order.
pub fn keys_json_items(entries: &Vec<(String, String)>) -> (items: Vec<Vec<(&'static str, LogValue)>>)
    ensures
        items@.len() == entries@.len(),
        forall|i: int| 0 <= i < entries@.len() ==> is_key_item(#[trigger] items@[i]@, entries@[i]),
{
    let mut items: Vec<Vec<(&'static str, LogValue)>> = Vec::new();
    let n = entries.len();
    for i in 0..n
        invariant
            n == entries@.len(),
            items@.len() == i,
            forall|j: int| 0 <= j < i ==> is_key_item(#[trigger] items@[j]@, entries@[j]),
    {
        let mut fs: Vec<(&'static str, LogValue)> = Vec::new();
        fs.push(("stroke", LogValue::Text(entries[i].1.clone())));
        fs.push(("timestamp", LogValue::Text(entries[i].0.clone())));
        items.push(fs);
    }
    items
}

/// One line of the keyboard export.
pub open spec fn keys_csv_line(row: (Seq<char>, Seq<char>)) -> Seq<char> {
    csv_field(row.0) + seq![','] + csv_field(row.1) + seq!['\n']
}

/// The lines of the keyboard export, in order.
pub open spec fn keys_csv_lines(rows: Seq<(Seq<char>, Seq<char>)>) -> Seq<char>
    decreases rows.len(),
{
    if rows.len() == 0 {
        Seq::empty()
    } else {
        keys_csv_lines(rows.drop_last()) + keys_csv_line(rows.last())
    }
}

/// The texts of keyboard log entries.
pub open spec fn entry_texts(rows: Seq<(String, String)>) -> Seq<(Seq<char>, Seq<char>)> {
    rows.map_values(|r: (String, String)| (r.0@, r.1@))
}

/// The keyboard export in CSV: a header, then one line per entry.
pub open spec fn keys_csv_text(rows: Seq<(Seq<char>, Seq<char>)>) -> Seq<char> {
    "timestamp,stroke\n"@ + keys_csv_lines(rows)
}

/// The keyboard export in CSV.
pub fn keys_csv(rows: &Vec<(String, String)>) -> (csv: String)
    ensures
        csv@ == keys_csv_text(entry_texts(rows@)),
{
    let mut csv = String::from_str("timestamp,stroke\n");
    let n = rows.len();
    for i in 0..n
        invariant
            n == rows@.len(),
            csv@ == "timestamp,stroke\n"@ + keys_csv_lines(entry_texts(rows@.subrange(0, i as int))),
    {
        push_csv_field(&mut csv, rows[i].0.as_str());
        csv.push(',');
        push_csv_field(&mut csv, rows[i].1.as_str());
        csv.push('\n');
        proof {
            let pre = entry_texts(rows@.subrange(0, i as int + 1));
            assert(pre.drop_last() =~= entry_texts(rows@.subrange(0, i as int)));
            assert(pre.last() == (rows@[i as int].0@, rows@[i as int].1@));
            assert(csv@ =~= "timestamp,stroke\n"@ + keys_csv_lines(pre));
        }
    }
    assert(rows@.subrange(0, n as int) =~= rows@);
    csv
}

/// A key press as recorded: the held modifiers, in the order Ctrl, Alt,
/// Shift, Cmd, each followed by `+`, then the key's name.
pub open spec fn chord_text(
    ctrl: bool,
    alt: bool,
    shift: bool,
    mac_cmd: bool,
    command: bool,
    key: Seq<char>,
) -> Seq<char> {
    (if ctrl { "Ctrl+"@ } else { Seq::empty() }) + (if alt { "Alt+"@ } else { Seq::empty() }) + (
    if shift {
        "Shift+"@
    } else {
        Seq::empty()
    }) + (if mac_cmd || command { "Cmd+"@ } else { Seq::empty() }) + key
}

/// The text recorded for a key press.
pub fn key_chord(
    ctrl: bool,
    alt: bool,
    shift: bool,
    mac_cmd: bool,
    command: bool,
    key: &str,
) -> (r: String)
    ensures
        r@ == chord_text(ctrl, alt, shift, mac_cmd, command, key@),
{
    let mut r = String::new();
    if ctrl {
        r.append("Ctrl+");
    }
    if alt {
        r.append("Alt+");
    }
    if shift {
        r.append("Shift+");
    }
    if mac_cmd || command {
        r.append("Cmd+");
    }
    r.append(key);
    assert(r@ =~= chord_text(ctrl, alt, shift, mac_cmd, command, key@));
    r
}

/// The abstract state of the keyboard recorder.
pub struct RecorderState {
    pub recording: bool,
    pub log: Seq<(Seq<char>, Seq<char>)>,
}

/// Records typed text and key presses, each with its time of day.
pub struct KeyboardRecorder {
    recording: bool,
    log: Vec<(String, String)>,
}

impl View for KeyboardRecorder {
    type V = RecorderState;

    closed spec fn view(&self) -> RecorderState {
        RecorderState { recording: self.recording, log: entry_texts(self.log@) }
    }
}

impl KeyboardRecorder {
    /// Not recording, nothing recorded.
    pub fn new() -> (k: Self)
        ensures
            !k@.recording,
            k@.log.len() == 0,
    {
        let k = KeyboardRecorder { recording: false, log: Vec::new() };
        assert(k@.log =~= Seq::empty());
        k
    }

    /// Whether key strokes are recorded.
    pub fn is_recording(&self) -> (b: bool)
        ensures
            b == self@.recording,
    {
        self.recording
    }

    /// Starts or stops recording; starting clears the log.
    pub fn toggle(&mut self)
        ensures
            final(self)@.recording == !old(self)@.recording,
            final(self)@.log == if final(self)@.recording {
                Seq::empty()
            } else {
                old(self)@.log
            },
    {
        self.recording = !self.recording;
        if self.recording {
            self.log = Vec::new();
            assert(self@.log =~= Seq::empty());
        }
    }

    /// The label of the button that toggles recording.
    pub fn button_label(&self) -> (s: &'static str)
        ensures
            s@ == if self@.recording {
                "Stop Recording"@
            } else {
                "Record Keyboard"@
            },
    {
        if self.recording {
            "Stop Recording"
        } else {
            "Record Keyboard"
        }
    }

    fn push_entry(&mut self, stroke: String)
        ensures
            final(self)@.recording == old(self)@.recording,
            final(self)@.log.len() == old(self)@.log.len() + 1,
            final(self)@.log.drop_last() == old(self)@.log,
            is_clock_reading(final(self)@.log.last().0),
            final(self)@.log.last().1 == stroke@,
    {
        let ts = current_timestamp_string();
        self.log.push((ts, stroke));
        assert(self@.log.drop_last() =~= old(self)@.log);
    }

    /// Records typed text, when recording and the text is not empty.
    pub fn record_text(&mut self, text: String)
        ensures
            old(self)@.recording && text@.len() > 0 ==> {
                &&& final(self)@.recording == old(self)@.recording
                &&& final(self)@.log.len() == old(self)@.log.len() + 1
                &&& final(self)@.log.drop_last() == old(self)@.log
                &&& is_clock_reading(final(self)@.log.last().0)
                &&& final(self)@.log.last().1 == text@
            },
            !(old(self)@.recording && text@.len() > 0) ==> final(self)@ == old(self)@,
    {
        if self.recording && text.as_str().unicode_len() > 0 {
            self.push_entry(text);
        }
    }

    /// Records a key press, when recording.
    pub fn record_key(
        &mut self,
        ctrl: bool,
        alt: bool,
        shift: bool,
        mac_cmd: bool,
        command: bool,
        key: &str,
    )
        ensures
            old(self)@.recording ==> {
                &&& final(self)@.recording
                &&& final(self)@.log.len() == old(self)@.log.len() + 1
                &&& final(self)@.log.drop_last() == old(self)@.log
                &&& is_clock_reading(final(self)@.log.last().0)
                &&& final(self)@.log.last().1 == chord_text(ctrl, alt, shift, mac_cmd, command, key@)
            },
            !old(self)@.recording ==> final(self)@ == old(self)@,
    {
        if self.recording {
            let chord = key_chord(ctrl, alt, shift, mac_cmd, command, key);
            self.push_entry(chord);
        }
    }

    /// The recorded entries: time of day and stroke.
    pub fn entries(&self) -> (e: &Vec<(String, String)>)
        ensures
            entry_texts(e@) == self@.log,
    {
        &self.log
    }

    /// The log as CSV.
    pub fn to_csv(&self) -> (csv: String)
        ensures
            csv@ == keys_csv_text(self@.log),
    {
        keys_csv(&self.log)
    }
}

/// The keyboard CSV lists the entries in recorded order: an empty log gives
/// the header alone, and a log with one more entry at its end gives the same
/// text followed by that entry's line (each field quoted, a comma between,
/// a newline after).
pub proof fn law_keys_csv_in_order(
    rows: &Vec<(String, String)>,
    csv: String,
    more: &Vec<(String, String)>,
    csv2: String,
)
    requires
        call_ensures(keys_csv, (rows,), csv),
        call_ensures(keys_csv, (more,), csv2),
        more@.len() == rows@.len() + 1,
        more@.subrange(0, rows@.len() as int) == rows@,
    ensures
        rows@.len() == 0 ==> csv@ == "timestamp,stroke\n"@,
        csv2@ == csv@ + csv_field(more@.last().0@) + seq![','] + csv_field(more@.last().1@)
            + seq!['\n'],
{
    let e = entry_texts(more@);
    assert(e.drop_last() =~= entry_texts(rows@));
    assert(e.last() == (more@.last().0@, more@.last().1@));
    if rows@.len() == 0 {
        assert(entry_texts(rows@) =~= Seq::<(Seq<char>, Seq<char>)>::empty());
    }
}

/// The chat CSV lists the rows in order: no rows give the header alone, and
/// one more row at the end gives the same text followed by that row's line.
pub proof fn law_chat_csv_in_order(
    rows: &Vec<(String, String, String)>,
    csv: String,
    more: &Vec<(String, String, String)>,
    csv2: String,
)
    requires
        call_ensures(chat_csv, (rows,), csv),
        call_ensures(chat_csv, (more,), csv2),
        more@.len() == rows@.len() + 1,
        more@.subrange(0, rows@.len() as int) == rows@,
    ensures
        rows@.len() == 0 ==> csv@ == "timestamp,from,content\n"@,
        csv2@ == csv@ + csv_field(more@.last().0@) + seq![','] + csv_field(more@.last().1@)
            + seq![','] + csv_field(more@.last().2@) + seq!['\n'],
{
    let e = row_texts(more@);
    assert(e.drop_last() =~= row_texts(rows@));
    assert(e.last() == (more@.last().0@, more@.last().1@, more@.last().2@));
    if rows@.len() == 0 {
        assert(row_texts(rows@) =~= Seq::<(Seq<char>, Seq<char>, Seq<char>)>::empty());
    }
}

} // verus!
