//! The payload decoder: from the two JSON payloads of a log row and its kind
//! to one of a closed set of typed shapes.
//!
//! A shape reads the members of the top-level object of a payload. Members that
//! it does not know are passed over. Decoding changes nothing but its result.

use crate::error::{DecodeError, PayloadBlob, PayloadField};
use crate::event::{EventKind, RawEvent, RawEventView};
use crate::json::{
    is_null, json_document, member, object_fields, parse_document, text_of, unsigned_of,
    JsonField, JsonFields,
};
use crate::model::app_event::AppEventKind;
use crate::model::brightness::{Brightness, BrightnessView};
use crate::model::dictionary::{DictionaryWord, DictionaryWordView};
use crate::seqs::text_view;
use crate::text::{parse_u8, parsed_u8};
use crate::time::{parse_timestamp, parsed_timestamp, Timestamp};
use vstd::prelude::*;

verus! {

/// The text under `key`, which the shape requires.
pub open spec fn required_text(fields: JsonFields, key: Seq<char>, field: PayloadField) -> Result<
    Seq<char>,
    DecodeError,
> {
    if fields.contains_key(key) {
        match fields[key] {
            JsonField::Text(text) => Ok(text),
            _ => Err(DecodeError::InvalidField(field)),
        }
    } else {
        Err(DecodeError::MissingField(field))
    }
}

/// The text under `key`, if the payload has the member and it is not `null`.
pub open spec fn optional_text(fields: JsonFields, key: Seq<char>, field: PayloadField) -> Result<
    Option<Seq<char>>,
    DecodeError,
> {
    if fields.contains_key(key) {
        match fields[key] {
            JsonField::Text(text) => Ok(Some(text)),
            JsonField::Null => Ok(None),
            _ => Err(DecodeError::InvalidField(field)),
        }
    } else {
        Ok(None)
    }
}

/// The unsigned integer under `key`, which the shape requires.
pub open spec fn required_unsigned(
    fields: JsonFields,
    key: Seq<char>,
    field: PayloadField,
) -> Result<u64, DecodeError> {
    if fields.contains_key(key) {
        match fields[key] {
            JsonField::Unsigned(number) => Ok(number),
            _ => Err(DecodeError::InvalidField(field)),
        }
    } else {
        Err(DecodeError::MissingField(field))
    }
}

/// Reads a required text member.
pub fn read_required_text(document: &serde_json::Value, key: &str, field: PayloadField) -> (r:
    Result<String, DecodeError>)
    ensures
        match r {
            Ok(text) => required_text(object_fields(*document), key@, field) == Ok::<
                Seq<char>,
                DecodeError,
            >(text@),
            Err(e) => required_text(object_fields(*document), key@, field) == Err::<
                Seq<char>,
                DecodeError,
            >(e),
        },
{
    match member(document, key) {
        None => Err(DecodeError::MissingField(field)),
        Some(value) => match text_of(value) {
            Some(text) => Ok(text.to_owned()),
            None => Err(DecodeError::InvalidField(field)),
        },
    }
}

/// Reads an optional text member.
pub fn read_optional_text(document: &serde_json::Value, key: &str, field: PayloadField) -> (r:
    Result<Option<String>, DecodeError>)
    ensures
        match r {
            Ok(text) => optional_text(object_fields(*document), key@, field) == Ok::<
                Option<Seq<char>>,
                DecodeError,
            >(text_view(text)),
            Err(e) => optional_text(object_fields(*document), key@, field) == Err::<
                Option<Seq<char>>,
                DecodeError,
            >(e),
        },
{
    match member(document, key) {
        None => Ok(None),
        Some(value) => match text_of(value) {
            Some(text) => Ok(Some(text.to_owned())),
            None => if is_null(value) {
                Ok(None)
            } else {
                Err(DecodeError::InvalidField(field))
            },
        },
    }
}

/// Reads a required unsigned member.
pub fn read_required_unsigned(document: &serde_json::Value, key: &str, field: PayloadField) -> (r:
    Result<u64, DecodeError>)
    ensures
        r == required_unsigned(object_fields(*document), key@, field),
{
    match member(document, key) {
        None => Err(DecodeError::MissingField(field)),
        Some(value) => match unsigned_of(value) {
            Some(number) => Ok(number),
            None => Err(DecodeError::InvalidField(field)),
        },
    }
}

/// The attributes of an open or a leave event.
#[derive(Debug)]
pub struct ReadingSessionAttributes {
    /// The reading progress in percent, as the device wrote it.
    pub progress: String,
    pub volumeid: Option<String>,
    pub title: Option<String>,
    pub author: Option<String>,
}

/// [`ReadingSessionAttributes`] with its texts as sequences of characters.
pub struct ReadingAttributesView {
    pub progress: Seq<char>,
    pub volumeid: Option<Seq<char>>,
    pub title: Option<Seq<char>>,
    pub author: Option<Seq<char>>,
}

impl View for ReadingSessionAttributes {
    type V = ReadingAttributesView;

    open spec fn view(&self) -> ReadingAttributesView {
        ReadingAttributesView {
            progress: self.progress@,
            volumeid: text_view(self.volumeid),
            title: text_view(self.title),
            author: text_view(self.author),
        }
    }
}

impl ReadingAttributesView {
    /// The progress as a number: what the text spells from 0 to 255, and 0
    /// where it spells no such number.
    pub open spec fn progress_value(self) -> u8 {
        match parsed_u8(self.progress) {
            Some(value) => value,
            None => 0,
        }
    }
}

impl ReadingSessionAttributes {
    /// The progress as a number; 0 where the text spells none.
    pub fn progress_value(&self) -> (r: u8)
        ensures
            r == self@.progress_value(),
    {
        match parse_u8(self.progress.as_str()) {
            Some(value) => value,
            None => 0,
        }
    }
}

/// The metrics of a leave event.
#[derive(Clone, Copy, Debug, PartialEq, Eq, Structural)]
pub struct LeaveContentMetrics {
    pub button_press_count: u64,
    pub seconds_read: u64,
    pub pages_turned: u64,
}

/// The attributes of a dictionary lookup.
#[derive(Debug)]
pub struct DictionaryAttributes {
    pub lang: String,
    pub word: String,
}

/// [`DictionaryAttributes`] with its texts as sequences of characters.
pub struct DictionaryAttributesView {
    pub lang: Seq<char>,
    pub word: Seq<char>,
}

impl View for DictionaryAttributes {
    type V = DictionaryAttributesView;

    open spec fn view(&self) -> DictionaryAttributesView {
        DictionaryAttributesView { lang: self.lang@, word: self.word@ }
    }
}

/// The shape of the attributes of an open or a leave event: `progress` is
/// required; `volumeid`, `title` and `attribution` may be absent or `null`.
pub open spec fn reading_attributes(fields: JsonFields) -> Result<
    ReadingAttributesView,
    DecodeError,
> {
    match required_text(fields, "progress"@, PayloadField::Progress) {
        Err(e) => Err(e),
        Ok(progress) => match optional_text(fields, "volumeid"@, PayloadField::VolumeId) {
            Err(e) => Err(e),
            Ok(volumeid) => match optional_text(fields, "title"@, PayloadField::Title) {
                Err(e) => Err(e),
                Ok(title) => match optional_text(
                    fields,
                    "attribution"@,
                    PayloadField::Attribution,
                ) {
                    Err(e) => Err(e),
                    Ok(author) => Ok(ReadingAttributesView { progress, volumeid, title, author }),
                },
            },
        },
    }
}

/// The shape of the metrics of a leave event: three required counters.
pub open spec fn leave_metrics(fields: JsonFields) -> Result<LeaveContentMetrics, DecodeError> {
    match required_unsigned(fields, "ButtonPressCount"@, PayloadField::ButtonPressCount) {
        Err(e) => Err(e),
        Ok(button_press_count) => match required_unsigned(
            fields,
            "SecondsRead"@,
            PayloadField::SecondsRead,
        ) {
            Err(e) => Err(e),
            Ok(seconds_read) => match required_unsigned(
                fields,
                "PagesTurned"@,
                PayloadField::PagesTurned,
            ) {
                Err(e) => Err(e),
                Ok(pages_turned) => Ok(
                    LeaveContentMetrics { button_press_count, seconds_read, pages_turned },
                ),
            },
        },
    }
}

/// The shape of the attributes of a dictionary lookup: the language of the
/// dictionary and the word, both required.
pub open spec fn dictionary_attributes(fields: JsonFields) -> Result<
    DictionaryAttributesView,
    DecodeError,
> {
    match required_text(fields, "Dictionary"@, PayloadField::Dictionary) {
        Err(e) => Err(e),
        Ok(lang) => match required_text(fields, "Word"@, PayloadField::Word) {
            Err(e) => Err(e),
            Ok(word) => Ok(DictionaryAttributesView { lang, word }),
        },
    }
}

/// The new level of a light event: a number from 0 to 255 under exactly one
/// of the names `NewBrightness`, `NewNaturalLight` and `new_light`.
pub open spec fn light_level(fields: JsonFields) -> Result<u8, DecodeError> {
    let brightness = fields.contains_key("NewBrightness"@);
    let natural = fields.contains_key("NewNaturalLight"@);
    let plain = fields.contains_key("new_light"@);
    if !brightness && !natural && !plain {
        Err(DecodeError::MissingField(PayloadField::NewLight))
    } else if (brightness && natural) || (brightness && plain) || (natural && plain) {
        Err(DecodeError::RepeatedField(PayloadField::NewLight))
    } else {
        let value = if brightness {
            fields["NewBrightness"@]
        } else if natural {
            fields["NewNaturalLight"@]
        } else {
            fields["new_light"@]
        };
        match value {
            JsonField::Unsigned(level) => if level <= u8::MAX {
                Ok(level as u8)
            } else {
                Err(DecodeError::InvalidField(PayloadField::NewLight))
            },
            _ => Err(DecodeError::InvalidField(PayloadField::NewLight)),
        }
    }
}

/// The shape of a light event: the method from the attributes, then the new
/// level from the metrics.
pub open spec fn light(attributes: JsonFields, metrics: JsonFields) -> Result<
    BrightnessView,
    DecodeError,
> {
    match required_text(attributes, "Method"@, PayloadField::Method) {
        Err(e) => Err(e),
        Ok(method) => match light_level(metrics) {
            Err(e) => Err(e),
            Ok(percentage) => Ok(BrightnessView { method, percentage }),
        },
    }
}

/// Decodes the attributes of an open or a leave event.
pub fn decode_reading_attributes(document: &serde_json::Value) -> (r: Result<
    ReadingSessionAttributes,
    DecodeError,
>)
    ensures
        match r {
            Ok(attributes) => reading_attributes(object_fields(*document)) == Ok::<
                ReadingAttributesView,
                DecodeError,
            >(attributes@),
            Err(e) => reading_attributes(object_fields(*document)) == Err::<
                ReadingAttributesView,
                DecodeError,
            >(e),
        },
{
    let progress = match read_required_text(document, "progress", PayloadField::Progress) {
        Ok(text) => text,
        Err(e) => {
            return Err(e);
        },
    };
    let volumeid = match read_optional_text(document, "volumeid", PayloadField::VolumeId) {
        Ok(text) => text,
        Err(e) => {
            return Err(e);
        },
    };
    let title = match read_optional_text(document, "title", PayloadField::Title) {
        Ok(text) => text,
        Err(e) => {
            return Err(e);
        },
    };
    let author = match read_optional_text(document, "attribution", PayloadField::Attribution) {
        Ok(text) => text,
        Err(e) => {
            return Err(e);
        },
    };
    Ok(ReadingSessionAttributes { progress, volumeid, title, author })
}

/// Decodes the metrics of a leave event.
pub fn decode_leave_metrics(document: &serde_json::Value) -> (r: Result<
    LeaveContentMetrics,
    DecodeError,
>)
    ensures
        r == leave_metrics(object_fields(*document)),
{
    let button_press_count = match read_required_unsigned(
        document,
        "ButtonPressCount",
        PayloadField::ButtonPressCount,
    ) {
        Ok(number) => number,
        Err(e) => {
            return Err(e);
        },
    };
    let seconds_read = match read_required_unsigned(
        document,
        "SecondsRead",
        PayloadField::SecondsRead,
    ) {
        Ok(number) => number,
        Err(e) => {
            return Err(e);
        },
    };
    let pages_turned = match read_required_unsigned(
        document,
        "PagesTurned",
        PayloadField::PagesTurned,
    ) {
        Ok(number) => number,
        Err(e) => {
            return Err(e);
        },
    };
    Ok(LeaveContentMetrics { button_press_count, seconds_read, pages_turned })
}

/// Decodes the attributes of a dictionary lookup.
pub fn decode_dictionary_attributes(document: &serde_json::Value) -> (r: Result<
    DictionaryAttributes,
    DecodeError,
>)
    ensures
        match r {
            Ok(attributes) => dictionary_attributes(object_fields(*document)) == Ok::<
                DictionaryAttributesView,
                DecodeError,
            >(attributes@),
            Err(e) => dictionary_attributes(object_fields(*document)) == Err::<
                DictionaryAttributesView,
                DecodeError,
            >(e),
        },
{
    let lang = match read_required_text(document, "Dictionary", PayloadField::Dictionary) {
        Ok(text) => text,
        Err(e) => {
            return Err(e);
        },
    };
    let word = match read_required_text(document, "Word", PayloadField::Word) {
        Ok(text) => text,
        Err(e) => {
            return Err(e);
        },
    };
    Ok(DictionaryAttributes { lang, word })
}

/// Decodes the new level of a light event.
pub fn decode_light_level(document: &serde_json::Value) -> (r: Result<u8, DecodeError>)
    ensures
        r == light_level(object_fields(*document)),
{
    let brightness = member(document, "NewBrightness");
    let natural = member(document, "NewNaturalLight");
    let plain = member(document, "new_light");
    let value = match (brightness, natural, plain) {
        (None, None, None) => {
            return Err(DecodeError::MissingField(PayloadField::NewLight));
        },
        (Some(value), None, None) => value,
        (None, Some(value), None) => value,
        (None, None, Some(value)) => value,
        _ => {
            return Err(DecodeError::RepeatedField(PayloadField::NewLight));
        },
    };
    match unsigned_of(value) {
        Some(level) => if level <= 255 {
            Ok(level as u8)
        } else {
            Err(DecodeError::InvalidField(PayloadField::NewLight))
        },
        None => Err(DecodeError::InvalidField(PayloadField::NewLight)),
    }
}

/// Decodes a light event from its two payloads.
pub fn decode_light(attributes: &serde_json::Value, metrics: &serde_json::Value) -> (r: Result<
    Brightness,
    DecodeError,
>)
    ensures
        match r {
            Ok(brightness) => light(object_fields(*attributes), object_fields(*metrics)) == Ok::<
                BrightnessView,
                DecodeError,
            >(brightness@),
            Err(e) => light(object_fields(*attributes), object_fields(*metrics)) == Err::<
                BrightnessView,
                DecodeError,
            >(e),
        },
{
    let method = match read_required_text(attributes, "Method", PayloadField::Method) {
        Ok(text) => text,
        Err(e) => {
            return Err(e);
        },
    };
    let percentage = match decode_light_level(metrics) {
        Ok(level) => level,
        Err(e) => {
            return Err(e);
        },
    };
    Ok(Brightness::new(method, percentage))
}

/// The members of a payload that an event requires.
pub open spec fn blob_fields(text: Option<Seq<char>>, blob: PayloadBlob) -> Result<
    JsonFields,
    DecodeError,
> {
    match text {
        None => Err(DecodeError::MissingBlob(blob)),
        Some(text) => match json_document(text) {
            None => Err(DecodeError::MalformedBlob(blob)),
            Some(fields) => Ok(fields),
        },
    }
}

/// Parses a payload that an event requires.
pub fn open_blob(text: &Option<String>, blob: PayloadBlob) -> (r: Result<
    serde_json::Value,
    DecodeError,
>)
    ensures
        match r {
            Ok(document) => blob_fields(text_view(*text), blob) == Ok::<JsonFields, DecodeError>(
                object_fields(document),
            ),
            Err(e) => blob_fields(text_view(*text), blob) == Err::<JsonFields, DecodeError>(e),
        },
{
    match text {
        None => Err(DecodeError::MissingBlob(blob)),
        Some(text) => match parse_document(text.as_str()) {
            None => Err(DecodeError::MalformedBlob(blob)),
            Some(document) => Ok(document),
        },
    }
}

/// Whether a character is white space, as Unicode defines it.
pub uninterp spec fn is_white_space(c: char) -> bool;

/// The number of white-space characters at the start of `text`.
pub open spec fn leading_space(text: Seq<char>) -> nat
    decreases text.len(),
{
    if text.len() > 0 && is_white_space(text.first()) {
        1 + leading_space(text.drop_first())
    } else {
        0
    }
}

/// The number of white-space characters at the end of `text`.
pub open spec fn trailing_space(text: Seq<char>) -> nat
    decreases text.len(),
{
    if text.len() > 0 && is_white_space(text.last()) {
        1 + trailing_space(text.drop_last())
    } else {
        0
    }
}

/// `text` without the white space at its two ends.
pub open spec fn trimmed(text: Seq<char>) -> Seq<char> {
    let rest = text.skip(leading_space(text) as int);
    rest.take(rest.len() - trailing_space(rest))
}

/// `str::trim`: the text without its leading and its trailing white space,
/// white space being what Unicode defines as such. What is left neither
/// begins nor ends with white space.
#[verifier::external_body]
fn trim(text: &str) -> (r: &str)
    ensures
        r@ == trimmed(text@),
        r@.len() > 0 ==> !is_white_space(r@.first()) && !is_white_space(r@.last()),
{
    text.trim()
}

/// Neither the white space at the start nor that at the end is more than the
/// text.
pub proof fn lemma_space_within(text: Seq<char>)
    ensures
        leading_space(text) <= text.len(),
        trailing_space(text) <= text.len(),
    decreases text.len(),
{
    if text.len() > 0 {
        lemma_space_within(text.drop_first());
        lemma_space_within(text.drop_last());
    }
}

/// The attributes of an application event: none where the row has none or
/// nothing but white space; else the text without the white space around it,
/// which has to be JSON of any kind.
pub open spec fn app_attributes(text: Option<Seq<char>>) -> Result<Option<Seq<char>>, DecodeError> {
    match text {
        None => Ok(None),
        Some(text) => if trimmed(text).len() == 0 {
            Ok(None)
        } else if json_document(trimmed(text)) is Some {
            Ok(Some(trimmed(text)))
        } else {
            Err(DecodeError::MalformedBlob(PayloadBlob::Attributes))
        },
    }
}

/// Decodes the attributes of an application event.
pub fn parse_optional_json_value(json: &Option<String>) -> (r: Result<Option<String>, DecodeError>)
    ensures
        match r {
            Ok(attributes) => app_attributes(text_view(*json)) == Ok::<
                Option<Seq<char>>,
                DecodeError,
            >(text_view(attributes)),
            Err(e) => app_attributes(text_view(*json)) == Err::<Option<Seq<char>>, DecodeError>(e),
        },
{
    match json {
        None => Ok(None),
        Some(raw) => {
            let inner = trim(raw.as_str());
            if inner.is_empty() {
                return Ok(None);
            }
            match parse_document(inner) {
                Some(_) => Ok(Some(inner.to_owned())),
                None => Err(DecodeError::MalformedBlob(PayloadBlob::Attributes)),
            }
        },
    }
}

/// What an event says, by its kind.
#[derive(Debug)]
pub enum Payload {
    /// Reading of a content unit begins.
    Open(ReadingSessionAttributes),
    /// Reading of a content unit ends.
    Leave(ReadingSessionAttributes, LeaveContentMetrics),
    /// A word was looked up.
    Dictionary(DictionaryAttributes),
    /// The screen's brightness was set.
    Brightness(Brightness),
    /// The natural-light setting was changed.
    NaturalLight(Brightness),
    /// The application was started, or the device plugged in.
    App(AppEventKind, Option<String>),
    /// An event of a kind that the library does not read.
    Unknown,
}

/// A [`Payload`] with its texts as sequences of characters.
pub enum PayloadView {
    Open(ReadingAttributesView),
    Leave(ReadingAttributesView, LeaveContentMetrics),
    Dictionary(DictionaryAttributesView),
    Brightness(BrightnessView),
    NaturalLight(BrightnessView),
    App(AppEventKind, Option<Seq<char>>),
    Unknown,
}

impl View for Payload {
    type V = PayloadView;

    open spec fn view(&self) -> PayloadView {
        match self {
            Payload::Open(attributes) => PayloadView::Open(attributes@),
            Payload::Leave(attributes, metrics) => PayloadView::Leave(attributes@, *metrics),
            Payload::Dictionary(attributes) => PayloadView::Dictionary(attributes@),
            Payload::Brightness(brightness) => PayloadView::Brightness(brightness@),
            Payload::NaturalLight(brightness) => PayloadView::NaturalLight(brightness@),
            Payload::App(kind, attributes) => PayloadView::App(*kind, text_view(*attributes)),
            Payload::Unknown => PayloadView::Unknown,
        }
    }
}

/// The shape of a light event of either kind, from the texts of its payloads:
/// the attributes are read first.
pub open spec fn light_payload(attributes: Option<Seq<char>>, metrics: Option<Seq<char>>) -> Result<
    BrightnessView,
    DecodeError,
> {
    match blob_fields(attributes, PayloadBlob::Attributes) {
        Err(e) => Err(e),
        Ok(attributes) => match blob_fields(metrics, PayloadBlob::Metrics) {
            Err(e) => Err(e),
            Ok(metrics) => light(attributes, metrics),
        },
    }
}

/// What the payloads of an event of kind `kind` decode to. An open event and
/// a dictionary lookup read the attributes; a leave event and a light event
/// read the attributes and then the metrics; an application event tolerates
/// absent attributes; an event of unknown kind reads nothing.
pub open spec fn payload_of(
    kind: EventKind,
    attributes: Option<Seq<char>>,
    metrics: Option<Seq<char>>,
) -> Result<PayloadView, DecodeError> {
    match kind {
        EventKind::OpenContent => match blob_fields(attributes, PayloadBlob::Attributes) {
            Err(e) => Err(e),
            Ok(fields) => match reading_attributes(fields) {
                Err(e) => Err(e),
                Ok(shape) => Ok(PayloadView::Open(shape)),
            },
        },
        EventKind::LeaveContent => match blob_fields(attributes, PayloadBlob::Attributes) {
            Err(e) => Err(e),
            Ok(fields) => match reading_attributes(fields) {
                Err(e) => Err(e),
                Ok(shape) => match blob_fields(metrics, PayloadBlob::Metrics) {
                    Err(e) => Err(e),
                    Ok(fields) => match leave_metrics(fields) {
                        Err(e) => Err(e),
                        Ok(counters) => Ok(PayloadView::Leave(shape, counters)),
                    },
                },
            },
        },
        EventKind::DictionaryLookup => match blob_fields(attributes, PayloadBlob::Attributes) {
            Err(e) => Err(e),
            Ok(fields) => match dictionary_attributes(fields) {
                Err(e) => Err(e),
                Ok(shape) => Ok(PayloadView::Dictionary(shape)),
            },
        },
        EventKind::BrightnessAdjusted => match light_payload(attributes, metrics) {
            Err(e) => Err(e),
            Ok(shape) => Ok(PayloadView::Brightness(shape)),
        },
        EventKind::NaturalLightAdjusted => match light_payload(attributes, metrics) {
            Err(e) => Err(e),
            Ok(shape) => Ok(PayloadView::NaturalLight(shape)),
        },
        EventKind::AppStart => match app_attributes(attributes) {
            Err(e) => Err(e),
            Ok(text) => Ok(PayloadView::App(AppEventKind::AppStart, text)),
        },
        EventKind::PluggedIn => match app_attributes(attributes) {
            Err(e) => Err(e),
            Ok(text) => Ok(PayloadView::App(AppEventKind::PluggedIn, text)),
        },
        EventKind::Unknown => Ok(PayloadView::Unknown),
    }
}

/// Decodes a light event of either kind from the texts of its payloads.
pub fn on_light_adjusted(attributes: &Option<String>, metrics: &Option<String>) -> (r: Result<
    Brightness,
    DecodeError,
>)
    ensures
        match r {
            Ok(brightness) => light_payload(text_view(*attributes), text_view(*metrics)) == Ok::<
                BrightnessView,
                DecodeError,
            >(brightness@),
            Err(e) => light_payload(text_view(*attributes), text_view(*metrics)) == Err::<
                BrightnessView,
                DecodeError,
            >(e),
        },
{
    let attributes = match open_blob(attributes, PayloadBlob::Attributes) {
        Ok(document) => document,
        Err(e) => {
            return Err(e);
        },
    };
    let metrics = match open_blob(metrics, PayloadBlob::Metrics) {
        Ok(document) => document,
        Err(e) => {
            return Err(e);
        },
    };
    decode_light(&attributes, &metrics)
}

/// The word of a dictionary lookup, from the text of its attributes, marked
/// with `session_id`.
pub open spec fn looked_up(attributes: Option<Seq<char>>, session_id: Option<u128>) -> Result<
    DictionaryWordView,
    DecodeError,
> {
    match blob_fields(attributes, PayloadBlob::Attributes) {
        Err(e) => Err(e),
        Ok(fields) => match dictionary_attributes(fields) {
            Err(e) => Err(e),
            Ok(shape) => Ok(
                DictionaryWordView { term: shape.word, lang: shape.lang, session_id },
            ),
        },
    }
}

/// Decodes a dictionary lookup from the text of its attributes into a word
/// marked with `session_id`.
pub fn on_dictionary_lookup(attributes: &Option<String>, session_id: Option<u128>) -> (r: Result<
    DictionaryWord,
    DecodeError,
>)
    ensures
        match r {
            Ok(word) => looked_up(text_view(*attributes), session_id) == Ok::<
                DictionaryWordView,
                DecodeError,
            >(word@),
            Err(e) => looked_up(text_view(*attributes), session_id) == Err::<
                DictionaryWordView,
                DecodeError,
            >(e),
        },
{
    let document = match open_blob(attributes, PayloadBlob::Attributes) {
        Ok(document) => document,
        Err(e) => {
            return Err(e);
        },
    };
    match decode_dictionary_attributes(&document) {
        Ok(shape) => Ok(DictionaryWord::new(shape.word, shape.lang, session_id)),
        Err(e) => Err(e),
    }
}

/// Decodes the attributes of an open or a leave event from their text.
fn on_reading_attributes(attributes: &Option<String>) -> (r: Result<
    ReadingSessionAttributes,
    DecodeError,
>)
    ensures
        match r {
            Ok(shape) => blob_fields(text_view(*attributes), PayloadBlob::Attributes) matches Ok(
                fields,
            ) && reading_attributes(fields) == Ok::<ReadingAttributesView, DecodeError>(shape@),
            Err(e) => match blob_fields(text_view(*attributes), PayloadBlob::Attributes) {
                Err(first) => e == first,
                Ok(fields) => reading_attributes(fields) == Err::<
                    ReadingAttributesView,
                    DecodeError,
                >(e),
            },
        },
{
    let document = match open_blob(attributes, PayloadBlob::Attributes) {
        Ok(document) => document,
        Err(e) => {
            return Err(e);
        },
    };
    decode_reading_attributes(&document)
}

/// Decodes the payloads of an event by its kind.
pub fn decode_payload(kind: EventKind, attributes: &Option<String>, metrics: &Option<String>) -> (r:
    Result<Payload, DecodeError>)
    ensures
        match r {
            Ok(payload) => payload_of(kind, text_view(*attributes), text_view(*metrics)) == Ok::<
                PayloadView,
                DecodeError,
            >(payload@),
            Err(e) => payload_of(kind, text_view(*attributes), text_view(*metrics)) == Err::<
                PayloadView,
                DecodeError,
            >(e),
        },
{
    match kind {
        EventKind::OpenContent => match on_reading_attributes(attributes) {
            Ok(shape) => Ok(Payload::Open(shape)),
            Err(e) => Err(e),
        },
        EventKind::LeaveContent => {
            let shape = match on_reading_attributes(attributes) {
                Ok(shape) => shape,
                Err(e) => {
                    return Err(e);
                },
            };
            let document = match open_blob(metrics, PayloadBlob::Metrics) {
                Ok(document) => document,
                Err(e) => {
                    return Err(e);
                },
            };
            match decode_leave_metrics(&document) {
                Ok(counters) => Ok(Payload::Leave(shape, counters)),
                Err(e) => Err(e),
            }
        },
        EventKind::DictionaryLookup => {
            let document = match open_blob(attributes, PayloadBlob::Attributes) {
                Ok(document) => document,
                Err(e) => {
                    return Err(e);
                },
            };
            match decode_dictionary_attributes(&document) {
                Ok(shape) => Ok(Payload::Dictionary(shape)),
                Err(e) => Err(e),
            }
        },
        EventKind::BrightnessAdjusted => match on_light_adjusted(attributes, metrics) {
            Ok(shape) => Ok(Payload::Brightness(shape)),
            Err(e) => Err(e),
        },
        EventKind::NaturalLightAdjusted => match on_light_adjusted(attributes, metrics) {
            Ok(shape) => Ok(Payload::NaturalLight(shape)),
            Err(e) => Err(e),
        },
        EventKind::AppStart => match parse_optional_json_value(attributes) {
            Ok(text) => Ok(Payload::App(AppEventKind::AppStart, text)),
            Err(e) => Err(e),
        },
        EventKind::PluggedIn => match parse_optional_json_value(attributes) {
            Ok(text) => Ok(Payload::App(AppEventKind::PluggedIn, text)),
            Err(e) => Err(e),
        },
        EventKind::Unknown => Ok(Payload::Unknown),
    }
}

/// An event with its instant and its payloads decoded.
#[derive(Debug)]
pub struct DecodedEvent {
    pub timestamp: Timestamp,
    pub payload: Payload,
}

/// A [`DecodedEvent`] over the view of its payload.
pub struct DecodedView {
    pub timestamp: Timestamp,
    pub payload: PayloadView,
}

impl View for DecodedEvent {
    type V = DecodedView;

    open spec fn view(&self) -> DecodedView {
        DecodedView { timestamp: self.timestamp, payload: self.payload@ }
    }
}

/// What a row of the log decodes to: its timestamp is read first, then its
/// payloads.
pub open spec fn decoded(event: RawEventView) -> Result<DecodedView, DecodeError> {
    match parsed_timestamp(event.timestamp) {
        None => Err(DecodeError::Timestamp),
        Some(timestamp) => match payload_of(event.kind, event.attributes, event.metrics) {
            Err(e) => Err(e),
            Ok(payload) => Ok(DecodedView { timestamp, payload }),
        },
    }
}

/// Decodes a row of the log.
pub fn decode_event(event: &RawEvent) -> (r: Result<DecodedEvent, DecodeError>)
    ensures
        match r {
            Ok(event_read) => decoded(event@) == Ok::<DecodedView, DecodeError>(event_read@),
            Err(e) => decoded(event@) == Err::<DecodedView, DecodeError>(e),
        },
{
    let timestamp = match parse_timestamp(event.timestamp.as_str()) {
        Ok(timestamp) => timestamp,
        Err(e) => {
            return Err(e);
        },
    };
    match decode_payload(event.kind, &event.attributes, &event.metrics) {
        Ok(payload) => Ok(DecodedEvent { timestamp, payload }),
        Err(e) => Err(e),
    }
}

} // verus!
