use kobo_db_tools::decode::{
    decode_dictionary_attributes, decode_event, decode_leave_metrics, decode_light,
    decode_light_level, decode_payload, decode_reading_attributes, on_dictionary_lookup,
    on_light_adjusted, open_blob, parse_optional_json_value, read_optional_text,
    read_required_text, read_required_unsigned, LeaveContentMetrics, Payload,
};
use kobo_db_tools::{AppEventKind, DecodeError, EventKind, PayloadBlob, PayloadField, RawEvent};

fn json(text: &str) -> serde_json::Value {
    serde_json::from_str(text).unwrap()
}

fn some(text: &str) -> Option<String> {
    Some(text.to_string())
}

#[test]
fn a_required_text_is_read() {
    let document = json("{\"Word\":\"test\",\"n\":1,\"none\":null}");
    assert_eq!(read_required_text(&document, "Word", PayloadField::Word), Ok("test".to_string()));
    assert_eq!(
        read_required_text(&document, "word", PayloadField::Word),
        Err(DecodeError::MissingField(PayloadField::Word))
    );
    assert_eq!(
        read_required_text(&document, "n", PayloadField::Word),
        Err(DecodeError::InvalidField(PayloadField::Word))
    );
    assert_eq!(
        read_required_text(&document, "none", PayloadField::Word),
        Err(DecodeError::InvalidField(PayloadField::Word))
    );
}

#[test]
fn an_optional_text_may_be_absent_or_null() {
    let document = json("{\"title\":\"A\",\"n\":1,\"none\":null}");
    assert_eq!(read_optional_text(&document, "title", PayloadField::Title), Ok(some("A")));
    assert_eq!(read_optional_text(&document, "absent", PayloadField::Title), Ok(None));
    assert_eq!(read_optional_text(&document, "none", PayloadField::Title), Ok(None));
    assert_eq!(
        read_optional_text(&document, "n", PayloadField::Title),
        Err(DecodeError::InvalidField(PayloadField::Title))
    );
}

#[test]
fn a_required_number_is_a_non_negative_integer() {
    let document = json(
        "{\"a\":0,\"b\":18446744073709551615,\"c\":-1,\"d\":1.0,\"e\":\"1\",\"f\":null,\"g\":18446744073709551616}",
    );
    let field = PayloadField::SecondsRead;
    assert_eq!(read_required_unsigned(&document, "a", field), Ok(0));
    assert_eq!(read_required_unsigned(&document, "b", field), Ok(u64::MAX));
    assert_eq!(read_required_unsigned(&document, "c", field), Err(DecodeError::InvalidField(field)));
    assert_eq!(read_required_unsigned(&document, "d", field), Err(DecodeError::InvalidField(field)));
    assert_eq!(read_required_unsigned(&document, "e", field), Err(DecodeError::InvalidField(field)));
    assert_eq!(read_required_unsigned(&document, "f", field), Err(DecodeError::InvalidField(field)));
    assert_eq!(read_required_unsigned(&document, "g", field), Err(DecodeError::InvalidField(field)));
    assert_eq!(read_required_unsigned(&document, "h", field), Err(DecodeError::MissingField(field)));
}

#[test]
fn a_document_that_is_no_object_has_no_members() {
    for text in ["[\"progress\"]", "\"progress\"", "5", "null", "true"] {
        let document = json(text);
        assert_eq!(
            read_required_text(&document, "progress", PayloadField::Progress),
            Err(DecodeError::MissingField(PayloadField::Progress))
        );
    }
}

#[test]
fn reading_attributes_are_decoded() {
    let document = json(
        "{\"progress\":\"42\",\"volumeid\":\"book1\",\"title\":\"T\",\"attribution\":\"A\",\"extra\":[1,2]}",
    );
    let attributes = decode_reading_attributes(&document).unwrap();
    assert_eq!(attributes.progress, "42");
    assert_eq!(attributes.progress_value(), 42);
    assert_eq!(attributes.volumeid.as_deref(), Some("book1"));
    assert_eq!(attributes.title.as_deref(), Some("T"));
    assert_eq!(attributes.author.as_deref(), Some("A"));

    let attributes = decode_reading_attributes(&json("{\"progress\":\"x\"}")).unwrap();
    assert_eq!(attributes.progress_value(), 0);
    assert_eq!(attributes.volumeid, None);
    assert_eq!(attributes.title, None);
    assert_eq!(attributes.author, None);
}

#[test]
fn reading_attributes_need_a_progress_text() {
    assert_eq!(
        decode_reading_attributes(&json("{\"volumeid\":\"book1\"}")).unwrap_err(),
        DecodeError::MissingField(PayloadField::Progress)
    );
    assert_eq!(
        decode_reading_attributes(&json("{\"progress\":42}")).unwrap_err(),
        DecodeError::InvalidField(PayloadField::Progress)
    );
    assert_eq!(
        decode_reading_attributes(&json("{\"progress\":\"1\",\"volumeid\":7}")).unwrap_err(),
        DecodeError::InvalidField(PayloadField::VolumeId)
    );
    assert_eq!(
        decode_reading_attributes(&json("{\"progress\":\"1\",\"title\":7}")).unwrap_err(),
        DecodeError::InvalidField(PayloadField::Title)
    );
    assert_eq!(
        decode_reading_attributes(&json("{\"progress\":\"1\",\"attribution\":false}")).unwrap_err(),
        DecodeError::InvalidField(PayloadField::Attribution)
    );
}

#[test]
fn leave_metrics_are_decoded() {
    let document = json("{\"ButtonPressCount\":10,\"SecondsRead\":600,\"PagesTurned\":5}");
    assert_eq!(
        decode_leave_metrics(&document),
        Ok(LeaveContentMetrics { button_press_count: 10, seconds_read: 600, pages_turned: 5 })
    );
    assert_eq!(
        decode_leave_metrics(&json("{\"SecondsRead\":600,\"PagesTurned\":5}")),
        Err(DecodeError::MissingField(PayloadField::ButtonPressCount))
    );
    assert_eq!(
        decode_leave_metrics(&json("{\"ButtonPressCount\":10,\"PagesTurned\":5}")),
        Err(DecodeError::MissingField(PayloadField::SecondsRead))
    );
    assert_eq!(
        decode_leave_metrics(&json("{\"ButtonPressCount\":10,\"SecondsRead\":600}")),
        Err(DecodeError::MissingField(PayloadField::PagesTurned))
    );
    assert_eq!(
        decode_leave_metrics(&json(
            "{\"ButtonPressCount\":10,\"SecondsRead\":-6,\"PagesTurned\":5}"
        )),
        Err(DecodeError::InvalidField(PayloadField::SecondsRead))
    );
}

#[test]
fn dictionary_attributes_are_decoded() {
    let attributes =
        decode_dictionary_attributes(&json("{\"Dictionary\":\"en\",\"Word\":\"test\"}")).unwrap();
    assert_eq!(attributes.lang, "en");
    assert_eq!(attributes.word, "test");
    assert_eq!(
        decode_dictionary_attributes(&json("{\"Word\":\"test\"}")).unwrap_err(),
        DecodeError::MissingField(PayloadField::Dictionary)
    );
    assert_eq!(
        decode_dictionary_attributes(&json("{\"Dictionary\":\"en\"}")).unwrap_err(),
        DecodeError::MissingField(PayloadField::Word)
    );
}

#[test]
fn a_lookup_is_marked_with_its_session() {
    let attributes = some("{\"Dictionary\":\"en\",\"Word\":\"test\"}");
    let word = on_dictionary_lookup(&attributes, Some(9)).unwrap();
    assert_eq!(word.term(), "test");
    assert_eq!(word.lang(), "en");
    assert_eq!(word.session_id(), Some(9));
    let word = on_dictionary_lookup(&attributes, None).unwrap();
    assert_eq!(word.session_id(), None);
    assert_eq!(
        on_dictionary_lookup(&None, None).unwrap_err(),
        DecodeError::MissingBlob(PayloadBlob::Attributes)
    );
}

#[test]
fn the_light_level_stands_under_one_of_its_names() {
    assert_eq!(decode_light_level(&json("{\"NewBrightness\":50}")), Ok(50));
    assert_eq!(decode_light_level(&json("{\"NewNaturalLight\":70}")), Ok(70));
    assert_eq!(decode_light_level(&json("{\"new_light\":0}")), Ok(0));
    assert_eq!(decode_light_level(&json("{\"NewBrightness\":255}")), Ok(255));
    assert_eq!(
        decode_light_level(&json("{\"NewBrightness\":256}")),
        Err(DecodeError::InvalidField(PayloadField::NewLight))
    );
    assert_eq!(
        decode_light_level(&json("{\"NewBrightness\":\"50\"}")),
        Err(DecodeError::InvalidField(PayloadField::NewLight))
    );
    assert_eq!(
        decode_light_level(&json("{}")),
        Err(DecodeError::MissingField(PayloadField::NewLight))
    );
    assert_eq!(
        decode_light_level(&json("{\"NewBrightness\":50,\"NewNaturalLight\":70}")),
        Err(DecodeError::RepeatedField(PayloadField::NewLight))
    );
    assert_eq!(
        decode_light_level(&json("{\"new_light\":50,\"NewNaturalLight\":70}")),
        Err(DecodeError::RepeatedField(PayloadField::NewLight))
    );
}

#[test]
fn a_light_event_is_decoded_from_both_payloads() {
    let brightness =
        decode_light(&json("{\"Method\":\"manual\"}"), &json("{\"NewBrightness\":50}")).unwrap();
    assert_eq!(brightness.method, "manual");
    assert_eq!(brightness.percentage, 50);
    assert_eq!(
        decode_light(&json("{}"), &json("{}")).unwrap_err(),
        DecodeError::MissingField(PayloadField::Method)
    );
    let brightness =
        on_light_adjusted(&some("{\"Method\":\"auto\"}"), &some("{\"NewNaturalLight\":70}"))
            .unwrap();
    assert_eq!(brightness.method, "auto");
    assert_eq!(brightness.percentage, 70);
    assert_eq!(
        on_light_adjusted(&None, &some("{\"NewNaturalLight\":70}")).unwrap_err(),
        DecodeError::MissingBlob(PayloadBlob::Attributes)
    );
    assert_eq!(
        on_light_adjusted(&some("{\"Method\":\"auto\"}"), &None).unwrap_err(),
        DecodeError::MissingBlob(PayloadBlob::Metrics)
    );
    assert_eq!(
        on_light_adjusted(&some("{\"Method\":\"auto\"}"), &some("")).unwrap_err(),
        DecodeError::MalformedBlob(PayloadBlob::Metrics)
    );
}

#[test]
fn a_payload_has_to_be_there_and_be_json() {
    assert!(open_blob(&some("{\"a\":1}"), PayloadBlob::Attributes).is_ok());
    assert!(open_blob(&some(" [1, 2] "), PayloadBlob::Attributes).is_ok());
    assert_eq!(
        open_blob(&None, PayloadBlob::Metrics).unwrap_err(),
        DecodeError::MissingBlob(PayloadBlob::Metrics)
    );
    assert_eq!(
        open_blob(&some("{\"a\":"), PayloadBlob::Metrics).unwrap_err(),
        DecodeError::MalformedBlob(PayloadBlob::Metrics)
    );
    assert_eq!(
        open_blob(&some(""), PayloadBlob::Attributes).unwrap_err(),
        DecodeError::MalformedBlob(PayloadBlob::Attributes)
    );
    assert_eq!(
        open_blob(&some("{} {}"), PayloadBlob::Attributes).unwrap_err(),
        DecodeError::MalformedBlob(PayloadBlob::Attributes)
    );
}

#[test]
fn the_attributes_of_an_app_event_may_be_empty() {
    assert_eq!(parse_optional_json_value(&None), Ok(None));
    assert_eq!(parse_optional_json_value(&some("")), Ok(None));
    assert_eq!(parse_optional_json_value(&some(" \t\n ")), Ok(None));
    assert_eq!(
        parse_optional_json_value(&some(" {\"app\":\"nickel\"}\n")),
        Ok(some("{\"app\":\"nickel\"}"))
    );
    assert_eq!(parse_optional_json_value(&some("7")), Ok(some("7")));
    assert_eq!(
        parse_optional_json_value(&some("{app}")),
        Err(DecodeError::MalformedBlob(PayloadBlob::Attributes))
    );
}

#[test]
fn payloads_are_decoded_by_kind() {
    let reading = some("{\"progress\":\"3\"}");
    let counters = some("{\"ButtonPressCount\":1,\"SecondsRead\":2,\"PagesTurned\":3}");
    assert!(matches!(
        decode_payload(EventKind::OpenContent, &reading, &None),
        Ok(Payload::Open(_))
    ));
    match decode_payload(EventKind::LeaveContent, &reading, &counters) {
        Ok(Payload::Leave(attributes, metrics)) => {
            assert_eq!(attributes.progress, "3");
            assert_eq!(metrics.seconds_read, 2);
        }
        other => panic!("{:?}", other),
    }
    assert_eq!(
        decode_payload(EventKind::LeaveContent, &reading, &None).unwrap_err(),
        DecodeError::MissingBlob(PayloadBlob::Metrics)
    );
    assert_eq!(
        decode_payload(EventKind::LeaveContent, &None, &counters).unwrap_err(),
        DecodeError::MissingBlob(PayloadBlob::Attributes)
    );
    assert!(matches!(
        decode_payload(
            EventKind::DictionaryLookup,
            &some("{\"Dictionary\":\"en\",\"Word\":\"w\"}"),
            &None
        ),
        Ok(Payload::Dictionary(_))
    ));
    assert!(matches!(
        decode_payload(
            EventKind::BrightnessAdjusted,
            &some("{\"Method\":\"m\"}"),
            &some("{\"NewBrightness\":1}")
        ),
        Ok(Payload::Brightness(_))
    ));
    assert!(matches!(
        decode_payload(
            EventKind::NaturalLightAdjusted,
            &some("{\"Method\":\"m\"}"),
            &some("{\"NewNaturalLight\":1}")
        ),
        Ok(Payload::NaturalLight(_))
    ));
    assert!(matches!(
        decode_payload(EventKind::AppStart, &None, &None),
        Ok(Payload::App(AppEventKind::AppStart, None))
    ));
    assert!(matches!(
        decode_payload(EventKind::PluggedIn, &some(""), &None),
        Ok(Payload::App(AppEventKind::PluggedIn, None))
    ));
    assert!(matches!(
        decode_payload(EventKind::Unknown, &some("{"), &some("{")),
        Ok(Payload::Unknown)
    ));
}

#[test]
fn an_event_needs_a_timestamp() {
    let event = RawEvent::new("e".to_string(), "AppStart", "soon".to_string(), None, None);
    assert_eq!(decode_event(&event).unwrap_err(), DecodeError::Timestamp);
    let event =
        RawEvent::new("e".to_string(), "AppStart", "2023-01-01T10:00:00Z".to_string(), None, None);
    let decoded = decode_event(&event).unwrap();
    assert_eq!(decoded.timestamp.seconds, 1_672_567_200);
    assert!(matches!(decoded.payload, Payload::App(AppEventKind::AppStart, None)));
}

#[test]
fn kinds_are_known_by_their_names() {
    let names = [
        ("OpenContent", EventKind::OpenContent),
        ("LeaveContent", EventKind::LeaveContent),
        ("DictionaryLookup", EventKind::DictionaryLookup),
        ("BrightnessAdjusted", EventKind::BrightnessAdjusted),
        ("NaturalLightAdjusted", EventKind::NaturalLightAdjusted),
        ("AppStart", EventKind::AppStart),
        ("PluggedIn", EventKind::PluggedIn),
    ];
    for (name, kind) in names {
        assert_eq!(EventKind::from_tag(name), kind);
        assert_eq!(kind.tag(), Some(name));
    }
    assert_eq!(EventKind::from_tag("opencontent"), EventKind::Unknown);
    assert_eq!(EventKind::from_tag("OpenContent "), EventKind::Unknown);
    assert_eq!(EventKind::from_tag(""), EventKind::Unknown);
    assert_eq!(EventKind::Unknown.tag(), None);
}

#[test]
fn white_space_of_every_kind_is_trimmed_off() {
    assert_eq!(
        parse_optional_json_value(&some("\u{a0}\u{2003}\r\n\t 7 \u{3000}\u{85}\u{b}\u{c}")),
        Ok(some("7"))
    );
    assert_eq!(parse_optional_json_value(&some("\u{a0}\u{2028}\u{2029}\u{1680}")), Ok(None));
    assert_eq!(parse_optional_json_value(&some(" [1, 2]\n ")), Ok(some("[1, 2]")));
    assert_eq!(
        parse_optional_json_value(&some("\u{200b}7")),
        Err(DecodeError::MalformedBlob(PayloadBlob::Attributes))
    );
}
