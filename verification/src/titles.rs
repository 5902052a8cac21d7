//! Book titles for the sessions of a log.
//!
//! A session knows the volume that was read. Its title comes from the books
//! that the events describe by themselves and from what the library of the
//! device answered for the volumes of the log; the former go first.

use crate::model::book::{Book, BookEntry, BookEntryView, BookView};
use crate::model::session::{ReadingSession, ReadingSessionView};
use crate::reconstruct::has_title;
use crate::seqs::{lemma_filter_none, lemma_filter_step, lemma_views_push, text_view, views};
use crate::text::text_equals;
use vstd::prelude::*;

verus! {

/// The place of the first entry for `volume` from place `from` on.
pub open spec fn entry_from(books: Seq<BookEntryView>, volume: Seq<char>, from: int) -> Option<int>
    decreases books.len() - from,
{
    if from < 0 || from >= books.len() {
        None
    } else if books[from].volume_id == volume {
        Some(from)
    } else {
        entry_from(books, volume, from + 1)
    }
}

/// The title under which `volume` is known: `volume` itself where an event
/// describes a book of that title, else the title of the first entry of the
/// library for `volume`.
pub open spec fn known_title(
    volume: Seq<char>,
    books: Seq<BookEntryView>,
    event_books: Seq<BookView>,
) -> Option<Seq<char>> {
    if has_title(event_books, volume) {
        Some(volume)
    } else {
        match entry_from(books, volume, 0) {
            Some(at) => Some(books[at].book.title),
            None => None,
        }
    }
}

/// The session with the title of its volume filled in, where the volume is
/// known; else as it is.
pub open spec fn titled(
    session: ReadingSessionView,
    books: Seq<BookEntryView>,
    event_books: Seq<BookView>,
) -> ReadingSessionView {
    match session.volume_id {
        Some(volume) => match known_title(volume, books, event_books) {
            Some(title) => ReadingSessionView { book_title: Some(title), ..session },
            None => session,
        },
        None => session,
    }
}

/// The sessions, each with the title of its volume filled in.
pub open spec fn all_titled(
    sessions: Seq<ReadingSessionView>,
    books: Seq<BookEntryView>,
    event_books: Seq<BookView>,
) -> Seq<ReadingSessionView> {
    Seq::new(sessions.len(), |i: int| titled(sessions[i], books, event_books))
}

/// The books of a log: those that the events describe, then the answers of
/// the library for volumes that no such book is named after.
pub open spec fn merged_books(books: Seq<BookEntryView>, event_books: Seq<BookView>) -> Seq<
    BookView,
> {
    event_books + books.filter(not_shadowed(event_books)).map_values(book_of())
}

/// The test "no described book has the volume identifier for its title" on
/// the answers of the library.
pub open spec fn not_shadowed(event_books: Seq<BookView>) -> spec_fn(BookEntryView) -> bool {
    |entry: BookEntryView| !has_title(event_books, entry.volume_id)
}

/// The book of an answer of the library.
pub open spec fn book_of() -> spec_fn(BookEntryView) -> BookView {
    |entry: BookEntryView| entry.book
}

/// Whether an event describes a book with the title `title`.
fn describes(event_books: &Vec<Book>, title: &str) -> (r: bool)
    ensures
        r == has_title(views(event_books@), title@),
{
    let mut i: usize = 0;
    while i < event_books.len()
        invariant
            i <= event_books@.len(),
            forall|k: int| 0 <= k < i ==> (#[trigger] views(event_books@)[k]).title != title@,
        decreases event_books@.len() - i,
    {
        if text_equals(event_books[i].title.as_str(), title) {
            assert(views(event_books@)[i as int].title == title@);
            return true;
        }
        i += 1;
    }
    false
}

/// The title under which `volume` is known.
pub fn find_title(volume: &str, books: &Vec<BookEntry>, event_books: &Vec<Book>) -> (r: Option<
    String,
>)
    ensures
        text_view(r) == known_title(volume@, views(books@), views(event_books@)),
{
    if describes(event_books, volume) {
        return Some(volume.to_owned());
    }
    let ghost list = views(books@);
    let mut i: usize = 0;
    while i < books.len()
        invariant
            i <= books@.len(),
            list == views(books@),
            !has_title(views(event_books@), volume@),
            entry_from(list, volume@, 0) == entry_from(list, volume@, i as int),
        decreases books@.len() - i,
    {
        if text_equals(books[i].volume_id.as_str(), volume) {
            return Some(books[i].book.title.clone());
        }
        i += 1;
    }
    None
}

/// Fills in the title of each session whose volume is known.
pub fn resolve_titles(
    sessions: &mut Vec<ReadingSession>,
    books: &Vec<BookEntry>,
    event_books: &Vec<Book>,
)
    ensures
        views(final(sessions)@) == all_titled(
            views(old(sessions)@),
            views(books@),
            views(event_books@),
        ),
{
    let ghost before = views(sessions@);
    let ghost library = views(books@);
    let ghost described = views(event_books@);
    let mut i: usize = 0;
    while i < sessions.len()
        invariant
            i <= sessions@.len(),
            sessions@.len() == before.len(),
            library == views(books@),
            described == views(event_books@),
            forall|k: int|
                0 <= k < i ==> (#[trigger] sessions@[k])@ == titled(before[k], library, described),
            forall|k: int| i <= k < sessions@.len() ==> (#[trigger] sessions@[k])@ == before[k],
        decreases sessions@.len() - i,
    {
        let found = match &sessions[i].volume_id {
            Some(volume) => find_title(volume.as_str(), books, event_books),
            None => None,
        };
        match found {
            Some(title) => {
                sessions[i].book_title = Some(title);
            },
            None => {},
        }
        i += 1;
    }
}

/// The books of a log: copies of those that the events describe, then of the
/// answers of the library for volumes that no such book is named after.
pub fn merge_books(books: &Vec<BookEntry>, event_books: &Vec<Book>) -> (r: Vec<Book>)
    ensures
        views(r@) == merged_books(views(books@), views(event_books@)),
{
    let ghost library = views(books@);
    let ghost described = views(event_books@);
    let ghost keep = not_shadowed(described);
    let mut merged: Vec<Book> = Vec::new();
    let mut i: usize = 0;
    while i < event_books.len()
        invariant
            i <= event_books@.len(),
            described == views(event_books@),
            views(merged@) == described.take(i as int),
        decreases event_books@.len() - i,
    {
        let copy = event_books[i].clone();
        proof {
            lemma_views_push(merged@, copy);
        }
        merged.push(copy);
        i += 1;
    }
    let mut k: usize = 0;
    proof {
        lemma_filter_none(library.take(0), keep);
    }
    while k < books.len()
        invariant
            k <= books@.len(),
            library == views(books@),
            described == views(event_books@),
            keep == not_shadowed(described),
            views(merged@) == described + library.take(k as int).filter(keep).map_values(book_of()),
        decreases books@.len() - k,
    {
        let entry = &books[k];
        proof {
            lemma_filter_step(library, keep, k as int);
        }
        if !describes(event_books, entry.volume_id.as_str()) {
            let copy = entry.book.clone();
            proof {
                lemma_views_push(merged@, copy);
            }
            merged.push(copy);
        }
        k += 1;
    }
    proof {
        assert(library.take(k as int) =~= library);
    }
    merged
}

} // verus!
