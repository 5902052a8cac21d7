//! What an export of the sessions holds, row by row. Writing the rows out as
//! text in one format or another is left to the caller.

use crate::model::correlated::{CorrelatedSession, CorrelatedSessionView};
use crate::model::dictionary::{DictionaryWord, DictionaryWordView};
use crate::render::{
    csv_record, digits_of, instant_text, number_text, signed_digits, signed_text, time_text,
    uuid_text, write_csv_record, write_uuid, ExportError,
};
use crate::seqs::{copy_text, text_view, views};
use crate::time::Timestamp;
use vstd::prelude::*;
use vstd::string::StringExecFns;

verus! {

/// The format of an export.
#[derive(Clone, Copy, Debug, PartialEq, Eq, Structural)]
pub enum ExportFormat {
    Csv,
    Markdown,
}

/// One session as a row of an export.
#[derive(Debug)]
pub struct SessionExportRow {
    pub session_id: u128,
    pub open_content_id: String,
    pub leave_content_id: Option<String>,
    pub start_time: Timestamp,
    pub end_time: Option<Timestamp>,
    pub duration_seconds: Option<i64>,
    pub start_progress: u8,
    pub end_progress: Option<u8>,
    pub progress_delta: Option<i16>,
    pub seconds_read: Option<u64>,
    pub pages_turned: Option<u64>,
    pub button_press_count: Option<u64>,
    pub book_title: Option<String>,
    pub volume_id: Option<String>,
    pub dictionary_lookups: usize,
    pub brightness_events: usize,
    pub natural_light_events: usize,
    pub app_events: usize,
}

/// A [`SessionExportRow`] with its texts as sequences of characters.
pub struct SessionExportRowView {
    pub session_id: u128,
    pub open_content_id: Seq<char>,
    pub leave_content_id: Option<Seq<char>>,
    pub start_time: Timestamp,
    pub end_time: Option<Timestamp>,
    pub duration_seconds: Option<i64>,
    pub start_progress: u8,
    pub end_progress: Option<u8>,
    pub progress_delta: Option<i16>,
    pub seconds_read: Option<u64>,
    pub pages_turned: Option<u64>,
    pub button_press_count: Option<u64>,
    pub book_title: Option<Seq<char>>,
    pub volume_id: Option<Seq<char>>,
    pub dictionary_lookups: usize,
    pub brightness_events: usize,
    pub natural_light_events: usize,
    pub app_events: usize,
}

impl View for SessionExportRow {
    type V = SessionExportRowView;

    open spec fn view(&self) -> SessionExportRowView {
        SessionExportRowView {
            session_id: self.session_id,
            open_content_id: self.open_content_id@,
            leave_content_id: text_view(self.leave_content_id),
            start_time: self.start_time,
            end_time: self.end_time,
            duration_seconds: self.duration_seconds,
            start_progress: self.start_progress,
            end_progress: self.end_progress,
            progress_delta: self.progress_delta,
            seconds_read: self.seconds_read,
            pages_turned: self.pages_turned,
            button_press_count: self.button_press_count,
            book_title: text_view(self.book_title),
            volume_id: text_view(self.volume_id),
            dictionary_lookups: self.dictionary_lookups,
            brightness_events: self.brightness_events,
            natural_light_events: self.natural_light_events,
            app_events: self.app_events,
        }
    }
}

/// The row of a session: the values of the session, the time from its start
/// to its end, the progress made from its start to its end (negative where
/// the end is the lower), and how many events of each kind it holds.
pub open spec fn export_row(session: CorrelatedSessionView) -> SessionExportRowView
    recommends
        session.dictionary.len() <= usize::MAX,
        session.brightness.len() <= usize::MAX,
        session.natural_light.len() <= usize::MAX,
        session.app_events.len() <= usize::MAX,
{
    SessionExportRowView {
        session_id: session.session.id,
        open_content_id: session.session.open_content_id,
        leave_content_id: session.session.leave_content_id,
        start_time: session.session.time_start,
        end_time: session.session.time_end,
        duration_seconds: session.session.duration(),
        start_progress: session.session.start_progress,
        end_progress: session.session.end_progress,
        progress_delta: match session.session.end_progress {
            Some(end) => Some((end - session.session.start_progress) as i16),
            None => None,
        },
        seconds_read: session.session.seconds_read,
        pages_turned: session.session.pages_turned,
        button_press_count: session.session.button_press_count,
        book_title: session.session.book_title,
        volume_id: session.session.volume_id,
        dictionary_lookups: session.dictionary.len() as usize,
        brightness_events: session.brightness.len() as usize,
        natural_light_events: session.natural_light.len() as usize,
        app_events: session.app_events.len() as usize,
    }
}

/// The rows of the sessions, in their order.
pub open spec fn export_rows(sessions: Seq<CorrelatedSessionView>) -> Seq<SessionExportRowView> {
    Seq::new(sessions.len(), |i: int| export_row(sessions[i]))
}

/// The row of a session.
pub fn to_export_row(session: &CorrelatedSession) -> (r: SessionExportRow)
    ensures
        r@ == export_row(session@),
{
    let end_progress = session.session.end_progress;
    let progress_delta = match end_progress {
        Some(end) => Some(end as i16 - session.session.start_progress as i16),
        None => None,
    };
    SessionExportRow {
        session_id: session.session.id,
        open_content_id: session.session.open_content_id.clone(),
        leave_content_id: copy_text(&session.session.leave_content_id),
        start_time: session.session.time_start,
        end_time: session.session.time_end,
        duration_seconds: session.session.duration(),
        start_progress: session.session.start_progress,
        end_progress,
        progress_delta,
        seconds_read: session.session.seconds_read,
        pages_turned: session.session.pages_turned,
        button_press_count: session.session.button_press_count,
        book_title: copy_text(&session.session.book_title),
        volume_id: copy_text(&session.session.volume_id),
        dictionary_lookups: session.dictionary.len(),
        brightness_events: session.brightness.len(),
        natural_light_events: session.natural_light.len(),
        app_events: session.app_events.len(),
    }
}

/// The rows of the sessions, in their order.
pub fn to_export_rows(sessions: &Vec<CorrelatedSession>) -> (r: Vec<SessionExportRow>)
    ensures
        views(r@) == export_rows(views(sessions@)),
{
    let ghost all = views(sessions@);
    let mut rows: Vec<SessionExportRow> = Vec::new();
    let mut i: usize = 0;
    while i < sessions.len()
        invariant
            i <= sessions@.len(),
            all == views(sessions@),
            rows@.len() == i,
            forall|k: int| 0 <= k < i ==> (#[trigger] rows@[k])@ == export_row(all[k]),
        decreases sessions@.len() - i,
    {
        rows.push(to_export_row(&sessions[i]));
        i += 1;
    }
    rows
}

/// The texts of the rows of a table, one after the other.
pub open spec fn rows_text<T>(items: Seq<T>, row: spec_fn(T) -> Seq<char>) -> Seq<char>
    decreases items.len(),
{
    if items.len() == 0 {
        Seq::empty()
    } else {
        rows_text(items.drop_last(), row) + row(items.last())
    }
}

/// The lines of the records of a table, one after the other, or why the
/// first record without a line has none.
pub open spec fn lines_text<T>(
    items: Seq<T>,
    line: spec_fn(T) -> Result<Seq<char>, ExportError>,
) -> Result<Seq<char>, ExportError>
    decreases items.len(),
{
    if items.len() == 0 {
        Ok(Seq::empty())
    } else {
        match lines_text(items.drop_last(), line) {
            Err(e) => Err(e),
            Ok(before) => match line(items.last()) {
                Err(e) => Err(e),
                Ok(last) => Ok(before + last),
            },
        }
    }
}

/// A table in CSV: nothing for no records, else the header and the lines of
/// the records, or why the header or the first record without a line has
/// none.
pub open spec fn table_text<T>(
    columns: Seq<Seq<char>>,
    items: Seq<T>,
    line: spec_fn(T) -> Result<Seq<char>, ExportError>,
) -> Result<Seq<char>, ExportError> {
    if items.len() == 0 {
        Ok(Seq::empty())
    } else {
        match csv_record(columns) {
            Err(e) => Err(e),
            Ok(header) => match lines_text(items, line) {
                Err(e) => Err(e),
                Ok(lines) => Ok(header + lines),
            },
        }
    }
}

/// The session of a word as a Markdown table shows it.
pub open spec fn shown_session(session_id: Option<u128>) -> Seq<char> {
    match session_id {
        Some(id) => uuid_text(id),
        None => "N/A"@,
    }
}

/// The row of a word in a Markdown table.
pub open spec fn word_row() -> spec_fn(DictionaryWordView) -> Seq<char> {
    |word: DictionaryWordView|
        "| "@ + word.term + " | "@ + word.lang + " | "@ + shown_session(word.session_id)
            + " |\n"@
}

/// The looked-up words as a Markdown table: term, language and session.
pub open spec fn dictionary_markdown(words: Seq<DictionaryWordView>) -> Seq<char> {
    "| Term | Language | Session ID |\n"@ + "|------|----------|------------|\n"@ + rows_text(
        words,
        word_row(),
    )
}

/// Writes the looked-up words as a Markdown table.
pub fn dictionary_to_md(words: &Vec<DictionaryWord>) -> (r: String)
    ensures
        r@ == dictionary_markdown(views(words@)),
{
    let ghost all = views(words@);
    let mut text = String::from_str("| Term | Language | Session ID |\n");
    text.append("|------|----------|------------|\n");
    let ghost head = text@;
    let mut i: usize = 0;
    while i < words.len()
        invariant
            i <= words@.len(),
            all == views(words@),
            text@ == head + rows_text(all.take(i as int), word_row()),
        decreases words@.len() - i,
    {
        let word = &words[i];
        proof {
            assert(all.take(i + 1).drop_last() =~= all.take(i as int));
        }
        text.append("| ");
        text.append(word.term());
        text.append(" | ");
        text.append(word.lang());
        text.append(" | ");
        match word.session_id() {
            Some(id) => {
                let shown = write_uuid(id);
                text.append(shown.as_str());
            },
            None => {
                text.append("N/A");
            },
        }
        text.append(" |\n");
        i += 1;
    }
    assert(all.take(i as int) =~= all);
    text
}

/// The session of a word as a CSV field holds it.
pub open spec fn session_field(session_id: Option<u128>) -> Seq<char> {
    match session_id {
        Some(id) => uuid_text(id),
        None => Seq::empty(),
    }
}

/// The line of a word in CSV.
pub open spec fn word_line() -> spec_fn(DictionaryWordView) -> Result<Seq<char>, ExportError> {
    |word: DictionaryWordView|
        csv_record(seq![word.term, word.lang, session_field(word.session_id)])
}

/// The looked-up words as CSV: nothing for no words, else a header and a
/// line for each word.
pub open spec fn dictionary_csv(words: Seq<DictionaryWordView>) -> Result<Seq<char>, ExportError> {
    table_text(seq!["term"@, "lang"@, "session_id"@], words, word_line())
}

/// Writes the looked-up words as CSV.
pub fn dictionary_to_csv(words: &Vec<DictionaryWord>) -> (r: Result<String, ExportError>)
    ensures
        match r {
            Ok(text) => dictionary_csv(views(words@)) == Ok::<Seq<char>, ExportError>(text@),
            Err(e) => dictionary_csv(views(words@)) == Err::<Seq<char>, ExportError>(e),
        },
{
    let ghost all = views(words@);
    if words.len() == 0 {
        return Ok(String::new());
    }
    let mut names: Vec<String> = Vec::new();
    names.push(String::from_str("term"));
    names.push(String::from_str("lang"));
    names.push(String::from_str("session_id"));
    assert(views(names@) =~= seq!["term"@, "lang"@, "session_id"@]);
    let mut text = match write_csv_record(&names) {
        Ok(header) => header,
        Err(e) => {
            return Err(e);
        },
    };
    let ghost head = text@;
    let mut i: usize = 0;
    while i < words.len()
        invariant
            i <= words@.len(),
            all == views(words@),
            csv_record(seq!["term"@, "lang"@, "session_id"@]) == Ok::<Seq<char>, ExportError>(
                head,
            ),
            lines_text(all.take(i as int), word_line()) matches Ok(lines) && text@ == head
                + lines,
        decreases words@.len() - i,
    {
        let word = &words[i];
        proof {
            assert(all.take(i + 1).drop_last() =~= all.take(i as int));
        }
        let mut fields: Vec<String> = Vec::new();
        fields.push(String::from_str(word.term()));
        fields.push(String::from_str(word.lang()));
        fields.push(
            match word.session_id() {
                Some(id) => write_uuid(id),
                None => String::new(),
            },
        );
        assert(views(fields@) =~= seq![word@.term, word@.lang, session_field(word@.session_id)]);
        match write_csv_record(&fields) {
            Ok(line) => {
                text.append(line.as_str());
            },
            Err(e) => {
                proof {
                    lemma_lines_fail(all, word_line(), i as int);
                }
                return Err(e);
            },
        }
        i += 1;
    }
    assert(all.take(i as int) =~= all);
    Ok(text)
}

/// The first record without a line leaves the whole table without lines,
/// for the same reason.
proof fn lemma_lines_fail<T>(
    items: Seq<T>,
    line: spec_fn(T) -> Result<Seq<char>, ExportError>,
    at: int,
)
    requires
        0 <= at < items.len(),
        lines_text(items.take(at), line) is Ok,
        line(items[at]) is Err,
    ensures
        lines_text(items, line) == line(items[at]),
    decreases items.len(),
{
    if at < items.len() - 1 {
        assert(items.drop_last().take(at) =~= items.take(at));
        lemma_lines_fail(items.drop_last(), line, at);
    } else {
        assert(items.drop_last() =~= items.take(at));
    }
}

/// A value that may be missing, as a Markdown table shows it.
pub open spec fn shown(value: Option<Seq<char>>) -> Seq<char> {
    match value {
        Some(text) => text,
        None => "N/A"@,
    }
}

/// A value that may be missing, as a CSV field holds it.
pub open spec fn field(value: Option<Seq<char>>) -> Seq<char> {
    match value {
        Some(text) => text,
        None => Seq::empty(),
    }
}

/// A number that may be missing, in decimal.
pub open spec fn number(value: Option<u64>) -> Option<Seq<char>> {
    match value {
        Some(n) => Some(digits_of(n as nat)),
        None => None,
    }
}

/// A whole number that may be missing, in decimal.
pub open spec fn signed_number(value: Option<i64>) -> Option<Seq<char>> {
    match value {
        Some(n) => Some(signed_digits(n as int)),
        None => None,
    }
}

/// An instant that may be missing, as text.
pub open spec fn instant(value: Option<Timestamp>) -> Option<Seq<char>> {
    match value {
        Some(at) => Some(instant_text(at)),
        None => None,
    }
}

/// The changes of brightness and of natural light of a row, together; the
/// largest `usize` where they are more.
pub open spec fn light_changes(row: SessionExportRowView) -> nat {
    if row.brightness_events + row.natural_light_events > usize::MAX {
        usize::MAX as nat
    } else {
        (row.brightness_events + row.natural_light_events) as nat
    }
}

/// The row of a session in a Markdown table: start, end, progress made,
/// pages, button presses, book, dictionary lookups and light changes.
pub open spec fn session_row() -> spec_fn(SessionExportRowView) -> Seq<char> {
    |row: SessionExportRowView|
        "| "@ + instant_text(row.start_time) + " | "@ + shown(instant(row.end_time)) + " | "@
            + shown(
            signed_number(
                match row.progress_delta {
                    Some(delta) => Some(delta as i64),
                    None => None,
                },
            ),
        ) + " | "@ + shown(number(row.pages_turned)) + " | "@ + shown(
            number(row.button_press_count),
        ) + " | "@ + shown(row.book_title) + " | "@ + digits_of(row.dictionary_lookups as nat)
            + " | "@ + digits_of(light_changes(row)) + " |\n"@
}

/// The sessions as a Markdown table.
pub open spec fn sessions_markdown(sessions: Seq<CorrelatedSessionView>) -> Seq<char> {
    "| Start | End | Progress \u{394} | Pages | Buttons | Book | Dictionary | Brightness |\n"@
        + "|-------|-----|------------|-------|---------|------|------------|------------|\n"@
        + rows_text(export_rows(sessions), session_row())
}

/// Writes a value that may be missing: `text` where there is one, else
/// `missing`.
fn or_else(value: Option<String>, missing: &str) -> (r: String)
    ensures
        r@ == match value {
            Some(text) => text@,
            None => missing@,
        },
{
    match value {
        Some(text) => text,
        None => String::from_str(missing),
    }
}

/// Writes a number that may be missing.
fn number_of(value: Option<u64>) -> (r: Option<String>)
    ensures
        text_view(r) == number(value),
{
    match value {
        Some(n) => Some(number_text(n)),
        None => None,
    }
}

/// Writes a whole number that may be missing.
fn signed_number_of(value: Option<i64>) -> (r: Option<String>)
    ensures
        text_view(r) == signed_number(value),
{
    match value {
        Some(n) => Some(signed_text(n)),
        None => None,
    }
}

/// Writes an instant that may be missing.
fn instant_of(value: Option<Timestamp>) -> (r: Option<String>)
    ensures
        text_view(r) == instant(value),
{
    match value {
        Some(at) => Some(time_text(at)),
        None => None,
    }
}

/// The progress made, as a whole number of the widest kind.
fn widened(delta: Option<i16>) -> (r: Option<i64>)
    ensures
        r == match delta {
            Some(delta) => Some(delta as i64),
            None => None,
        },
{
    match delta {
        Some(delta) => Some(delta as i64),
        None => None,
    }
}

/// Writes the row of a session for a Markdown table.
fn session_row_text(row: &SessionExportRow) -> (r: String)
    ensures
        r@ == session_row()(row@),
{
    let mut text = String::from_str("| ");
    text.append(time_text(row.start_time).as_str());
    text.append(" | ");
    text.append(or_else(instant_of(row.end_time), "N/A").as_str());
    text.append(" | ");
    text.append(or_else(signed_number_of(widened(row.progress_delta)), "N/A").as_str());
    text.append(" | ");
    text.append(or_else(number_of(row.pages_turned), "N/A").as_str());
    text.append(" | ");
    text.append(or_else(number_of(row.button_press_count), "N/A").as_str());
    text.append(" | ");
    text.append(or_else(copy_text(&row.book_title), "N/A").as_str());
    text.append(" | ");
    text.append(number_text(row.dictionary_lookups as u64).as_str());
    text.append(" | ");
    let lights = row.brightness_events.saturating_add(row.natural_light_events);
    text.append(number_text(lights as u64).as_str());
    text.append(" |\n");
    text
}

/// Writes the sessions as a Markdown table.
pub fn sessions_to_md(sessions: &Vec<CorrelatedSession>) -> (r: String)
    ensures
        r@ == sessions_markdown(views(sessions@)),
{
    let rows = to_export_rows(sessions);
    let ghost all = views(rows@);
    let mut text = String::from_str(
        "| Start | End | Progress \u{394} | Pages | Buttons | Book | Dictionary | Brightness |\n",
    );
    text.append(
        "|-------|-----|------------|-------|---------|------|------------|------------|\n",
    );
    let ghost head = text@;
    let mut i: usize = 0;
    while i < rows.len()
        invariant
            i <= rows@.len(),
            all == views(rows@),
            text@ == head + rows_text(all.take(i as int), session_row()),
        decreases rows@.len() - i,
    {
        proof {
            assert(all.take(i + 1).drop_last() =~= all.take(i as int));
        }
        let line = session_row_text(&rows[i]);
        text.append(line.as_str());
        i += 1;
    }
    assert(all.take(i as int) =~= all);
    text
}

/// The names of the columns of the sessions in CSV.
pub open spec fn session_columns() -> Seq<Seq<char>> {
    seq![
        "session_id"@,
        "open_content_id"@,
        "leave_content_id"@,
        "start_time"@,
        "end_time"@,
        "duration_seconds"@,
        "start_progress"@,
        "end_progress"@,
        "progress_delta"@,
        "seconds_read"@,
        "pages_turned"@,
        "button_press_count"@,
        "book_title"@,
        "volume_id"@,
        "dictionary_lookups"@,
        "brightness_events"@,
        "natural_light_events"@,
        "app_events"@,
    ]
}

/// The fields of a session in CSV, in the order of the columns. A value that
/// is missing is an empty field.
pub open spec fn session_fields(row: SessionExportRowView) -> Seq<Seq<char>> {
    seq![
        uuid_text(row.session_id),
        row.open_content_id,
        field(row.leave_content_id),
        instant_text(row.start_time),
        field(instant(row.end_time)),
        field(signed_number(row.duration_seconds)),
        digits_of(row.start_progress as nat),
        field(
            number(
                match row.end_progress {
                    Some(end) => Some(end as u64),
                    None => None,
                },
            ),
        ),
        field(
            signed_number(
                match row.progress_delta {
                    Some(delta) => Some(delta as i64),
                    None => None,
                },
            ),
        ),
        field(number(row.seconds_read)),
        field(number(row.pages_turned)),
        field(number(row.button_press_count)),
        field(row.book_title),
        field(row.volume_id),
        digits_of(row.dictionary_lookups as nat),
        digits_of(row.brightness_events as nat),
        digits_of(row.natural_light_events as nat),
        digits_of(row.app_events as nat),
    ]
}

/// The line of a session in CSV.
pub open spec fn session_line() -> spec_fn(SessionExportRowView) -> Result<
    Seq<char>,
    ExportError,
> {
    |row: SessionExportRowView| csv_record(session_fields(row))
}

/// The sessions as CSV: nothing for no sessions, else a header and a line
/// for each session.
pub open spec fn sessions_csv(sessions: Seq<CorrelatedSessionView>) -> Result<
    Seq<char>,
    ExportError,
> {
    table_text(session_columns(), export_rows(sessions), session_line())
}

/// The names of the columns of the sessions in CSV.
fn session_column_names() -> (r: Vec<String>)
    ensures
        views(r@) == session_columns(),
{
    let mut names: Vec<String> = Vec::new();
    names.push(String::from_str("session_id"));
    names.push(String::from_str("open_content_id"));
    names.push(String::from_str("leave_content_id"));
    names.push(String::from_str("start_time"));
    names.push(String::from_str("end_time"));
    names.push(String::from_str("duration_seconds"));
    names.push(String::from_str("start_progress"));
    names.push(String::from_str("end_progress"));
    names.push(String::from_str("progress_delta"));
    names.push(String::from_str("seconds_read"));
    names.push(String::from_str("pages_turned"));
    names.push(String::from_str("button_press_count"));
    names.push(String::from_str("book_title"));
    names.push(String::from_str("volume_id"));
    names.push(String::from_str("dictionary_lookups"));
    names.push(String::from_str("brightness_events"));
    names.push(String::from_str("natural_light_events"));
    names.push(String::from_str("app_events"));
    names
}

/// The end progress as a number of the widest kind.
fn widened_progress(progress: Option<u8>) -> (r: Option<u64>)
    ensures
        r == match progress {
            Some(end) => Some(end as u64),
            None => None,
        },
{
    match progress {
        Some(end) => Some(end as u64),
        None => None,
    }
}

/// The fields of a session in CSV.
fn session_field_texts(row: &SessionExportRow) -> (r: Vec<String>)
    ensures
        views(r@) == session_fields(row@),
{
    let mut fields: Vec<String> = Vec::new();
    fields.push(write_uuid(row.session_id));
    fields.push(row.open_content_id.clone());
    fields.push(or_else(copy_text(&row.leave_content_id), ""));
    fields.push(time_text(row.start_time));
    fields.push(or_else(instant_of(row.end_time), ""));
    fields.push(or_else(signed_number_of(row.duration_seconds), ""));
    fields.push(number_text(row.start_progress as u64));
    fields.push(or_else(number_of(widened_progress(row.end_progress)), ""));
    fields.push(or_else(signed_number_of(widened(row.progress_delta)), ""));
    fields.push(or_else(number_of(row.seconds_read), ""));
    fields.push(or_else(number_of(row.pages_turned), ""));
    fields.push(or_else(number_of(row.button_press_count), ""));
    fields.push(or_else(copy_text(&row.book_title), ""));
    fields.push(or_else(copy_text(&row.volume_id), ""));
    fields.push(number_text(row.dictionary_lookups as u64));
    fields.push(number_text(row.brightness_events as u64));
    fields.push(number_text(row.natural_light_events as u64));
    fields.push(number_text(row.app_events as u64));
    proof {
        reveal_strlit("");
        assert(""@ =~= Seq::<char>::empty());
    }
    fields
}

/// Writes the sessions as CSV.
pub fn sessions_to_csv(sessions: &Vec<CorrelatedSession>) -> (r: Result<String, ExportError>)
    ensures
        match r {
            Ok(text) => sessions_csv(views(sessions@)) == Ok::<Seq<char>, ExportError>(text@),
            Err(e) => sessions_csv(views(sessions@)) == Err::<Seq<char>, ExportError>(e),
        },
{
    if sessions.len() == 0 {
        return Ok(String::new());
    }
    let rows = to_export_rows(sessions);
    let ghost all = views(rows@);
    let names = session_column_names();
    let mut text = match write_csv_record(&names) {
        Ok(header) => header,
        Err(e) => {
            return Err(e);
        },
    };
    let ghost head = text@;
    let mut i: usize = 0;
    while i < rows.len()
        invariant
            i <= rows@.len(),
            all == views(rows@),
            all == export_rows(views(sessions@)),
            sessions@.len() > 0,
            csv_record(session_columns()) == Ok::<Seq<char>, ExportError>(head),
            lines_text(all.take(i as int), session_line()) matches Ok(lines) && text@ == head
                + lines,
        decreases rows@.len() - i,
    {
        proof {
            assert(all.take(i + 1).drop_last() =~= all.take(i as int));
        }
        let fields = session_field_texts(&rows[i]);
        match write_csv_record(&fields) {
            Ok(line) => {
                text.append(line.as_str());
            },
            Err(e) => {
                proof {
                    lemma_lines_fail(all, session_line(), i as int);
                }
                return Err(e);
            },
        }
        i += 1;
    }
    assert(all.take(i as int) =~= all);
    Ok(text)
}

} // verus!
