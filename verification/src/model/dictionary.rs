use vstd::prelude::*;

verus! {

/// A word that was looked up in a dictionary.
#[derive(Debug, Hash)]
pub struct DictionaryWord {
    term: String,
    lang: String,
    session_id: Option<u128>,
}

/// A [`DictionaryWord`] with its texts as sequences of characters.
pub struct DictionaryWordView {
    pub term: Seq<char>,
    pub lang: Seq<char>,
    pub session_id: Option<u128>,
}

impl View for DictionaryWord {
    type V = DictionaryWordView;

    closed spec fn view(&self) -> DictionaryWordView {
        DictionaryWordView { term: self.term@, lang: self.lang@, session_id: self.session_id }
    }
}

impl DictionaryWord {
    pub fn new(term: String, lang: String, session_id: Option<u128>) -> (r: Self)
        ensures
            r@ == (DictionaryWordView { term: term@, lang: lang@, session_id }),
    {
        Self { term, lang, session_id }
    }

    pub fn term(&self) -> (r: &str)
        ensures
            r@ == self@.term,
    {
        self.term.as_str()
    }

    pub fn lang(&self) -> (r: &str)
        ensures
            r@ == self@.lang,
    {
        self.lang.as_str()
    }

    /// The identifier of the session in which the word was looked up.
    pub fn session_id(&self) -> (r: Option<u128>)
        ensures
            r == self@.session_id,
    {
        self.session_id
    }

    /// Whether two words have the same term, language and session.
    pub fn same_as(&self, other: &DictionaryWord) -> (r: bool)
        ensures
            r == (self@ == other@),
    {
        let same = self.term == other.term && self.lang == other.lang && self.session_id
            == other.session_id;
        proof {
            if self.term@ == other.term@ && self.lang@ == other.lang@ && self.session_id
                == other.session_id {
                assert(self@ == other@);
            }
        }
        same
    }
}

impl PartialEq for DictionaryWord {
    fn eq(&self, other: &Self) -> (r: bool) {
        self.same_as(other)
    }
}

impl Eq for DictionaryWord {

}

impl vstd::std_specs::cmp::PartialEqSpecImpl for DictionaryWord {
    open spec fn obeys_eq_spec() -> bool {
        true
    }

    open spec fn eq_spec(&self, other: &Self) -> bool {
        self@ == other@
    }
}

impl Clone for DictionaryWord {
    fn clone(&self) -> (r: Self)
        ensures
            r@ == self@,
    {
        Self { term: self.term.clone(), lang: self.lang.clone(), session_id: self.session_id }
    }
}

} // verus!
