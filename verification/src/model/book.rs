use vstd::prelude::*;

verus! {

/// A book of the device's library.
#[derive(Debug)]
pub struct Book {
    pub authors: String,
    pub title: String,
    pub size: Option<u64>,
    pub book_id: String,
}

/// A [`Book`] with its texts as sequences of characters.
pub struct BookView {
    pub authors: Seq<char>,
    pub title: Seq<char>,
    pub size: Option<u64>,
    pub book_id: Seq<char>,
}

impl View for Book {
    type V = BookView;

    open spec fn view(&self) -> BookView {
        BookView {
            authors: self.authors@,
            title: self.title@,
            size: self.size,
            book_id: self.book_id@,
        }
    }
}

impl Book {
    pub fn new(authors: String, title: String, size: Option<u64>, book_id: String) -> (r: Self)
        ensures
            r.authors == authors,
            r.title == title,
            r.size == size,
            r.book_id == book_id,
    {
        Self { authors, title, size, book_id }
    }

    pub fn authors(&self) -> (r: &str)
        ensures
            r@ == self.authors@,
    {
        self.authors.as_str()
    }

    pub fn title(&self) -> (r: &str)
        ensures
            r@ == self.title@,
    {
        self.title.as_str()
    }

    pub fn size(&self) -> (r: Option<u64>)
        ensures
            r == self.size,
    {
        self.size
    }
}

impl Clone for Book {
    fn clone(&self) -> (r: Self)
        ensures
            r@ == self@,
    {
        Self {
            authors: self.authors.clone(),
            title: self.title.clone(),
            size: self.size,
            book_id: self.book_id.clone(),
        }
    }
}

/// What the library of the device answered for one volume identifier.
#[derive(Debug)]
pub struct BookEntry {
    /// The identifier that was asked for.
    pub volume_id: String,
    pub book: Book,
}

/// A [`BookEntry`] with its texts as sequences of characters.
pub struct BookEntryView {
    pub volume_id: Seq<char>,
    pub book: BookView,
}

impl View for BookEntry {
    type V = BookEntryView;

    open spec fn view(&self) -> BookEntryView {
        BookEntryView { volume_id: self.volume_id@, book: self.book@ }
    }
}

impl BookEntry {
    pub fn new(volume_id: String, book: Book) -> (r: Self)
        ensures
            r.volume_id == volume_id,
            r.book == book,
    {
        Self { volume_id, book }
    }
}

impl Clone for BookEntry {
    fn clone(&self) -> (r: Self)
        ensures
            r@ == self@,
    {
        Self { volume_id: self.volume_id.clone(), book: self.book.clone() }
    }
}

} // verus!
