use vstd::prelude::*;

verus! {

/// A family of log events, as the rows of the log name them.
pub enum EventType {
    DictionaryLookup,
    ReadingSession,
    BrightnessAdjusted,
    Unknown(String),
}

impl EventType {
    /// The row types of the family, in lower case.
    pub open spec fn type_names(self) -> Seq<Seq<char>> {
        match self {
            EventType::DictionaryLookup => seq!["dictionarylookup"@],
            EventType::ReadingSession => seq!["opencontent"@, "leavecontent"@],
            EventType::BrightnessAdjusted => seq!["brightnessadjusted"@],
            EventType::Unknown(_) => seq!["unknown"@],
        }
    }

    pub fn db_types(&self) -> (r: Vec<&'static str>)
        ensures
            r@.len() == self.type_names().len(),
            forall|i: int| 0 <= i < r@.len() ==> (#[trigger] r@[i])@ == self.type_names()[i],
    {
        match self {
            EventType::DictionaryLookup => vec!["dictionarylookup"],
            EventType::ReadingSession => vec!["opencontent", "leavecontent"],
            EventType::BrightnessAdjusted => vec!["brightnessadjusted"],
            EventType::Unknown(_) => vec!["unknown"],
        }
    }
}

} // verus!
