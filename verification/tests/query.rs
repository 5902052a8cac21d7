use kobo_db_tools::{build_event_query, event_types_for_option, EventKind, EventType, ParseOption};

#[test]
fn the_query_has_one_parameter_for_each_type() {
    assert_eq!(
        build_event_query(0),
        "SELECT Id, Type, Timestamp, Attributes, Metrics FROM AnalyticsEvents WHERE Type IN () ORDER BY Timestamp ASC;"
    );
    assert_eq!(
        build_event_query(1),
        "SELECT Id, Type, Timestamp, Attributes, Metrics FROM AnalyticsEvents WHERE Type IN (?) ORDER BY Timestamp ASC;"
    );
    assert_eq!(
        build_event_query(3),
        "SELECT Id, Type, Timestamp, Attributes, Metrics FROM AnalyticsEvents WHERE Type IN (?, ?, ?) ORDER BY Timestamp ASC;"
    );
    let all = event_types_for_option(ParseOption::All).len();
    assert_eq!(build_event_query(all).matches('?').count(), 7);
}

#[test]
fn each_part_names_its_types() {
    assert_eq!(
        event_types_for_option(ParseOption::All),
        vec![
            "OpenContent",
            "LeaveContent",
            "DictionaryLookup",
            "BrightnessAdjusted",
            "NaturalLightAdjusted",
            "AppStart",
            "PluggedIn",
        ]
    );
    assert_eq!(
        event_types_for_option(ParseOption::ReadingSessions),
        vec!["OpenContent", "LeaveContent"]
    );
    assert_eq!(event_types_for_option(ParseOption::DictionaryLookups), vec!["DictionaryLookup"]);
    assert_eq!(event_types_for_option(ParseOption::BrightnessHistory), vec!["BrightnessAdjusted"]);
    assert_eq!(
        event_types_for_option(ParseOption::NaturalLightHistory),
        vec!["NaturalLightAdjusted"]
    );
    assert_eq!(event_types_for_option(ParseOption::AppStart), vec!["AppStart"]);
    assert_eq!(event_types_for_option(ParseOption::PluggedIn), vec!["PluggedIn"]);
    assert!(event_types_for_option(ParseOption::Bookmarks).is_empty());
}

#[test]
fn a_part_includes_the_kinds_of_its_types() {
    let options = [
        ParseOption::All,
        ParseOption::ReadingSessions,
        ParseOption::DictionaryLookups,
        ParseOption::BrightnessHistory,
        ParseOption::NaturalLightHistory,
        ParseOption::Bookmarks,
        ParseOption::AppStart,
        ParseOption::PluggedIn,
    ];
    let kinds = [
        EventKind::OpenContent,
        EventKind::LeaveContent,
        EventKind::DictionaryLookup,
        EventKind::BrightnessAdjusted,
        EventKind::NaturalLightAdjusted,
        EventKind::AppStart,
        EventKind::PluggedIn,
        EventKind::Unknown,
    ];
    for option in options {
        let types = event_types_for_option(option);
        for kind in kinds {
            let named = match kind.tag() {
                Some(tag) => types.contains(&tag),
                None => false,
            };
            assert_eq!(option.includes(kind), named);
        }
    }
}

#[test]
fn event_families_name_their_row_types() {
    assert_eq!(EventType::DictionaryLookup.db_types(), vec!["dictionarylookup"]);
    assert_eq!(EventType::ReadingSession.db_types(), vec!["opencontent", "leavecontent"]);
    assert_eq!(EventType::BrightnessAdjusted.db_types(), vec!["brightnessadjusted"]);
    assert_eq!(EventType::Unknown("Settings".to_string()).db_types(), vec!["unknown"]);
}
