//! The words that were looked up, with the number of their lookups.

use crate::model::dictionary::{DictionaryWord, DictionaryWordView};
use crate::reconstruct::{TimedDictionaryWord, TimedWordView};
use crate::seqs::{lemma_views_push, views};
use vstd::prelude::*;

verus! {

/// A looked-up word and how often it was looked up in the same session.
#[derive(Debug)]
pub struct TermCount {
    pub word: DictionaryWord,
    pub count: usize,
}

/// A [`TermCount`] over the view of its word.
pub struct TermCountView {
    pub word: DictionaryWordView,
    pub count: nat,
}

impl View for TermCount {
    type V = TermCountView;

    open spec fn view(&self) -> TermCountView {
        TermCountView { word: self.word@, count: self.count as nat }
    }
}

/// The place of the entry for `word` from place `from` on.
pub open spec fn place_from(
    counts: Seq<TermCountView>,
    word: DictionaryWordView,
    from: int,
) -> Option<int>
    decreases counts.len() - from,
{
    if from < 0 || from >= counts.len() {
        None
    } else if counts[from].word == word {
        Some(from)
    } else {
        place_from(counts, word, from + 1)
    }
}

/// The counts after one more lookup of `word`: its entry counts one more, or a
/// new entry at the end counts one.
pub open spec fn counted(counts: Seq<TermCountView>, word: DictionaryWordView) -> Seq<
    TermCountView,
> {
    match place_from(counts, word, 0) {
        Some(at) => counts.update(at, TermCountView { word, count: counts[at].count + 1 }),
        None => counts.push(TermCountView { word, count: 1 }),
    }
}

/// The words of the lookups, each once, in the order of their first lookup,
/// with the number of their lookups. Two lookups are of the same word where
/// term, language and session agree.
pub open spec fn term_counts(lookups: Seq<TimedWordView>) -> Seq<TermCountView>
    decreases lookups.len(),
{
    if lookups.len() == 0 {
        Seq::empty()
    } else {
        counted(term_counts(lookups.drop_last()), lookups.last().word)
    }
}

/// The sum of the counts.
pub open spec fn lookups_counted(counts: Seq<TermCountView>) -> nat
    decreases counts.len(),
{
    if counts.len() == 0 {
        0
    } else {
        lookups_counted(counts.drop_last()) + counts.last().count
    }
}

/// Changing one count changes the sum by as much.
proof fn lemma_sum_update(counts: Seq<TermCountView>, at: int, entry: TermCountView)
    requires
        0 <= at < counts.len(),
    ensures
        lookups_counted(counts.update(at, entry)) + counts[at].count == lookups_counted(counts)
            + entry.count,
        counts[at].count <= lookups_counted(counts),
    decreases counts.len(),
{
    let changed = counts.update(at, entry);
    if at == counts.len() - 1 {
        assert(changed.drop_last() =~= counts.drop_last());
    } else {
        assert(changed.drop_last() =~= counts.drop_last().update(at, entry));
        lemma_sum_update(counts.drop_last(), at, entry);
    }
}

/// Where an entry is found, it is an entry for the word.
proof fn lemma_place(counts: Seq<TermCountView>, word: DictionaryWordView, from: int)
    requires
        0 <= from,
    ensures
        place_from(counts, word, from) matches Some(at) ==> from <= at < counts.len()
            && counts[at].word == word,
    decreases counts.len() - from,
{
    if from < counts.len() && counts[from].word != word {
        lemma_place(counts, word, from + 1);
    }
}

/// Every lookup is counted once: the counts add up to the number of lookups.
pub proof fn lemma_counts_add_up(lookups: Seq<TimedWordView>)
    ensures
        lookups_counted(term_counts(lookups)) == lookups.len(),
    decreases lookups.len(),
{
    if lookups.len() > 0 {
        let before = term_counts(lookups.drop_last());
        let word = lookups.last().word;
        lemma_counts_add_up(lookups.drop_last());
        lemma_place(before, word, 0);
        match place_from(before, word, 0) {
            Some(at) => {
                lemma_sum_update(
                    before,
                    at,
                    TermCountView { word, count: before[at].count + 1 },
                );
            },
            None => {
                assert(before.push(TermCountView { word, count: 1 }).drop_last() =~= before);
            },
        }
    }
}

/// Counts the lookups word by word.
pub fn count_terms(lookups: &Vec<TimedDictionaryWord>) -> (r: Vec<TermCount>)
    ensures
        views(r@) == term_counts(views(lookups@)),
{
    let ghost all = views(lookups@);
    let mut counts: Vec<TermCount> = Vec::new();
    let mut k: usize = 0;
    while k < lookups.len()
        invariant
            k <= lookups@.len(),
            all == views(lookups@),
            views(counts@) == term_counts(all.take(k as int)),
        decreases lookups@.len() - k,
    {
        let word = &lookups[k].word;
        let ghost list = views(counts@);
        proof {
            assert(all.take(k + 1).drop_last() =~= all.take(k as int));
            lemma_counts_add_up(all.take(k as int));
        }
        let mut at: usize = 0;
        let mut found = false;
        while at < counts.len()
            invariant_except_break
                !found,
                place_from(list, word@, 0) == place_from(list, word@, at as int),
            invariant
                at <= counts@.len(),
                list == views(counts@),
            ensures
                list == views(counts@),
                at <= counts@.len(),
                found ==> at < counts@.len() && place_from(list, word@, 0) == Some(at as int),
                !found ==> place_from(list, word@, 0) is None,
            decreases counts@.len() - at,
        {
            if counts[at].word.same_as(word) {
                found = true;
                break ;
            }
            at += 1;
        }
        if found {
            let ghost entry = TermCountView { word: word@, count: list[at as int].count + 1 };
            proof {
                lemma_place(list, word@, 0);
                lemma_sum_update(list, at as int, entry);
            }
            let more = counts[at].count + 1;
            counts[at].count = more;
        } else {
            let entry = TermCount { word: word.clone(), count: 1 };
            proof {
                lemma_views_push(counts@, entry);
            }
            counts.push(entry);
        }
        k += 1;
    }
    proof {
        assert(all.take(k as int) =~= all);
    }
    counts
}

} // verus!
