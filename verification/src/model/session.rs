use crate::seqs::{copy_text, lemma_filter_none, lemma_filter_step, text_view, views};
use crate::time::{elapsed_seconds, seconds_between, Timestamp};
use vstd::prelude::*;

verus! {

/// The shortest reading time, in seconds, for a session to count in statistics.
pub const MIN_VALID_SESSION_TIME: u64 = 60;

/// The highest reading progress, in percent.
pub const MAX_PROGRESS: u8 = 100;

/// A measure of a reading session.
#[derive(Clone, Copy, Debug, PartialEq, Eq, Structural)]
pub enum ReadingMetric {
    SecondsRead,
    PagesTurned,
    ButtonPressCount,
    Progress,
}

/// Why a session could not be completed.
#[derive(Clone, Copy, Debug, PartialEq, Eq, Structural)]
pub enum ReadingSessionError {
    /// The end lies before the start.
    InvalidEndTime,
    /// A progress value lies above 100, or the end progress below the start
    /// progress.
    InvalidProgressValue,
}

/// One interval of reading: opened by an event of the log, and completed by a
/// later one.
#[derive(Debug)]
pub struct ReadingSession {
    pub id: u128,
    pub open_content_id: String,
    pub leave_content_id: Option<String>,
    pub time_start: Timestamp,
    pub time_end: Option<Timestamp>,
    pub volume_id: Option<String>,
    pub start_progress: u8,
    pub end_progress: Option<u8>,
    pub book_title: Option<String>,
    pub button_press_count: Option<u64>,
    pub seconds_read: Option<u64>,
    pub pages_turned: Option<u64>,
}

/// A [`ReadingSession`] with its texts as sequences of characters.
pub struct ReadingSessionView {
    pub id: u128,
    pub open_content_id: Seq<char>,
    pub leave_content_id: Option<Seq<char>>,
    pub time_start: Timestamp,
    pub time_end: Option<Timestamp>,
    pub volume_id: Option<Seq<char>>,
    pub start_progress: u8,
    pub end_progress: Option<u8>,
    pub book_title: Option<Seq<char>>,
    pub button_press_count: Option<u64>,
    pub seconds_read: Option<u64>,
    pub pages_turned: Option<u64>,
}

impl View for ReadingSession {
    type V = ReadingSessionView;

    open spec fn view(&self) -> ReadingSessionView {
        ReadingSessionView {
            id: self.id,
            open_content_id: self.open_content_id@,
            leave_content_id: text_view(self.leave_content_id),
            time_start: self.time_start,
            time_end: self.time_end,
            volume_id: text_view(self.volume_id),
            start_progress: self.start_progress,
            end_progress: self.end_progress,
            book_title: text_view(self.book_title),
            button_press_count: self.button_press_count,
            seconds_read: self.seconds_read,
            pages_turned: self.pages_turned,
        }
    }
}

impl ReadingSessionView {
    /// The session that an open event starts: nothing of its end is known.
    pub open spec fn opened(
        id: u128,
        time_start: Timestamp,
        start_progress: u8,
        book_title: Option<Seq<char>>,
        volume_id: Option<Seq<char>>,
        open_content_id: Seq<char>,
    ) -> ReadingSessionView {
        ReadingSessionView {
            id,
            open_content_id,
            leave_content_id: None,
            time_start,
            time_end: None,
            volume_id,
            start_progress,
            end_progress: None,
            book_title,
            button_press_count: None,
            seconds_read: None,
            pages_turned: None,
        }
    }

    /// What stands against completing the session at `time_end` with
    /// `end_progress`, if anything: the end time is judged first.
    pub open spec fn completion_error(self, time_end: Timestamp, end_progress: u8) -> Option<
        ReadingSessionError,
    > {
        if time_end.before(self.time_start) {
            Some(ReadingSessionError::InvalidEndTime)
        } else if end_progress > MAX_PROGRESS || self.start_progress > MAX_PROGRESS
            || end_progress < self.start_progress {
            Some(ReadingSessionError::InvalidProgressValue)
        } else {
            None
        }
    }

    /// The session with its end filled in.
    pub open spec fn completed(
        self,
        time_end: Timestamp,
        end_progress: u8,
        button_press_count: u64,
        seconds_read: u64,
        pages_turned: u64,
        leave_content_id: Seq<char>,
    ) -> ReadingSessionView {
        ReadingSessionView {
            leave_content_id: Some(leave_content_id),
            time_end: Some(time_end),
            end_progress: Some(end_progress),
            button_press_count: Some(button_press_count),
            seconds_read: Some(seconds_read),
            pages_turned: Some(pages_turned),
            ..self
        }
    }

    /// The session has been completed.
    pub open spec fn is_complete(self) -> bool {
        self.end_progress is Some
    }

    /// The end, the end progress, the three counters and the closing event are
    /// present together or not at all; a completed session does not end before
    /// it starts, and its progress runs upward within 0 to 100.
    pub open spec fn well_formed(self) -> bool {
        &&& self.time_end is Some <==> self.is_complete()
        &&& self.leave_content_id is Some <==> self.is_complete()
        &&& self.button_press_count is Some <==> self.is_complete()
        &&& self.seconds_read is Some <==> self.is_complete()
        &&& self.pages_turned is Some <==> self.is_complete()
        &&& self.is_complete() ==> {
            &&& self.time_start.at_or_before(self.time_end->0)
            &&& self.start_progress <= self.end_progress->0 <= MAX_PROGRESS
        }
    }

    /// The session is complete and was read for at least
    /// [`MIN_VALID_SESSION_TIME`] seconds.
    pub open spec fn is_valid(self) -> bool {
        &&& self.is_complete()
        &&& self.seconds_read matches Some(seconds)
        &&& seconds >= MIN_VALID_SESSION_TIME
    }

    /// The time from start to end in whole seconds; none for a session that
    /// has no end.
    pub open spec fn duration(self) -> Option<i64> {
        match self.time_end {
            Some(end) => seconds_between(self.time_start, end),
            None => None,
        }
    }
}

/// `Uuid::new_v4`: a random identifier, as its 128 bits. Nothing is promised
/// of the value.
#[verifier::external_body]
fn fresh_id() -> u128 {
    uuid::Uuid::new_v4().as_u128()
}

impl ReadingSession {
    /// Opens a session under a fresh random identifier.
    pub fn new(
        ts: Timestamp,
        start_progress: u8,
        book_title: Option<String>,
        volume_id: Option<String>,
        open_content_id: String,
    ) -> (r: Self)
        ensures
            r@ == ReadingSessionView::opened(
                r.id,
                ts,
                start_progress,
                text_view(book_title),
                text_view(volume_id),
                open_content_id@,
            ),
            r@.well_formed(),
    {
        Self::with_id(fresh_id(), ts, start_progress, book_title, volume_id, open_content_id)
    }

    /// Opens a session under the identifier `id`.
    pub fn with_id(
        id: u128,
        ts: Timestamp,
        start_progress: u8,
        book_title: Option<String>,
        volume_id: Option<String>,
        open_content_id: String,
    ) -> (r: Self)
        ensures
            r@ == ReadingSessionView::opened(
                id,
                ts,
                start_progress,
                text_view(book_title),
                text_view(volume_id),
                open_content_id@,
            ),
            r@.well_formed(),
    {
        Self {
            id,
            time_start: ts,
            time_end: None,
            open_content_id,
            leave_content_id: None,
            volume_id,
            start_progress,
            end_progress: None,
            book_title,
            button_press_count: None,
            seconds_read: None,
            pages_turned: None,
        }
    }

    /// Completes the session, or leaves it untouched and says what stands
    /// against it.
    pub fn complete_session(
        &mut self,
        time_end: Timestamp,
        end_progress: u8,
        button_press_count: u64,
        seconds_read: u64,
        pages_turned: u64,
        leave_content_id: String,
    ) -> (r: Result<(), ReadingSessionError>)
        ensures
            match r {
                Ok(()) => {
                    &&& old(self)@.completion_error(time_end, end_progress) is None
                    &&& final(self)@ == old(self)@.completed(
                        time_end,
                        end_progress,
                        button_press_count,
                        seconds_read,
                        pages_turned,
                        leave_content_id@,
                    )
                },
                Err(e) => {
                    &&& old(self)@.completion_error(time_end, end_progress) == Some(e)
                    &&& *final(self) == *old(self)
                },
            },
            old(self)@.well_formed() ==> final(self)@.well_formed(),
    {
        if time_end.is_before(self.time_start) {
            return Err(ReadingSessionError::InvalidEndTime);
        }
        if end_progress > MAX_PROGRESS || self.start_progress > MAX_PROGRESS || end_progress
            < self.start_progress {
            return Err(ReadingSessionError::InvalidProgressValue);
        }
        self.time_end = Some(time_end);
        self.end_progress = Some(end_progress);
        self.button_press_count = Some(button_press_count);
        self.seconds_read = Some(seconds_read);
        self.pages_turned = Some(pages_turned);
        self.leave_content_id = Some(leave_content_id);
        Ok(())
    }

    pub fn is_complete(&self) -> (r: bool)
        ensures
            r == self@.is_complete(),
    {
        self.end_progress.is_some()
    }

    /// The time from start to end in whole seconds.
    pub fn duration(&self) -> (r: Option<i64>)
        ensures
            r == self@.duration(),
    {
        match self.time_end {
            Some(end) => elapsed_seconds(self.time_start, end),
            None => None,
        }
    }

    /// Whether the session counts in statistics.
    pub fn is_valid(&self) -> (r: bool)
        ensures
            r == self@.is_valid(),
    {
        match self.seconds_read {
            Some(seconds) => self.is_complete() && seconds >= MIN_VALID_SESSION_TIME,
            None => false,
        }
    }
}

impl Default for ReadingSession {
    /// A session that starts at 1970-01-01T00:00:00Z with the identifier 0
    /// and no text.
    fn default() -> (r: Self)
        ensures
            r@ == ReadingSessionView::opened(
                0,
                Timestamp { seconds: 0, nanos: 0 },
                0,
                None,
                None,
                Seq::empty(),
            ),
    {
        Self::with_id(0, Timestamp { seconds: 0, nanos: 0 }, 0, None, None, String::new())
    }
}

impl Clone for ReadingSession {
    fn clone(&self) -> (r: Self)
        ensures
            r@ == self@,
    {
        Self {
            id: self.id,
            open_content_id: self.open_content_id.clone(),
            leave_content_id: copy_text(&self.leave_content_id),
            time_start: self.time_start,
            time_end: self.time_end,
            volume_id: copy_text(&self.volume_id),
            start_progress: self.start_progress,
            end_progress: self.end_progress,
            book_title: copy_text(&self.book_title),
            button_press_count: self.button_press_count,
            seconds_read: self.seconds_read,
            pages_turned: self.pages_turned,
        }
    }
}

/// The reading sessions of a log, in the order in which they were completed.
#[derive(Debug)]
pub struct ReadingSessions {
    sessions: Vec<ReadingSession>,
}

impl View for ReadingSessions {
    type V = Seq<ReadingSessionView>;

    closed spec fn view(&self) -> Seq<ReadingSessionView> {
        views(self.sessions@)
    }
}

impl Default for ReadingSessions {
    fn default() -> (r: Self)
        ensures
            r.items() == Seq::<ReadingSession>::empty(),
            r@ == Seq::<ReadingSessionView>::empty(),
    {
        Self::new()
    }
}

impl ReadingSessions {
    /// The sessions themselves.
    pub closed spec fn items(&self) -> Seq<ReadingSession> {
        self.sessions@
    }

    /// The view is that of the items, one by one.
    pub proof fn lemma_view(&self)
        ensures
            self@ == views(self.items()),
    {
    }

    pub fn new() -> (r: Self)
        ensures
            r.items() == Seq::<ReadingSession>::empty(),
            r@ == Seq::<ReadingSessionView>::empty(),
    {
        let r = Self { sessions: Vec::new() };
        r
    }

    /// The collection of `sessions`, in their order.
    pub fn from_sessions(sessions: Vec<ReadingSession>) -> (r: Self)
        ensures
            r.items() == sessions@,
            r@ == views(sessions@),
    {
        Self { sessions }
    }

    pub fn add_session(&mut self, session: ReadingSession)
        ensures
            final(self).items() == old(self).items().push(session),
            final(self)@ == old(self)@.push(session@),
    {
        self.sessions.push(session);
    }

    pub fn sessions_count(&self) -> (r: usize)
        ensures
            r == self.items().len(),
            r == self@.len(),
    {
        self.sessions.len()
    }

    /// All sessions, valid or not.
    pub fn get_sessions(&self) -> (r: &Vec<ReadingSession>)
        ensures
            r@ == self.items(),
    {
        &self.sessions
    }

    /// Gives the sessions up.
    pub fn into_sessions(self) -> (r: Vec<ReadingSession>)
        ensures
            r@ == self.items(),
    {
        self.sessions
    }

    /// The sessions that count in statistics, in order.
    pub open spec fn valid_items(&self) -> Seq<ReadingSession> {
        self.items().filter(counts_in_statistics())
    }

    /// The sessions that count in statistics, in order.
    pub fn valid_sessions(&self) -> (r: Vec<&ReadingSession>)
        ensures
            r@.len() == self.valid_items().len(),
            forall|i: int| 0 <= i < r@.len() ==> *(#[trigger] r@[i]) == self.valid_items()[i],
    {
        let ghost valid = counts_in_statistics();
        let mut found: Vec<&ReadingSession> = Vec::new();
        let mut i: usize = 0;
        proof {
            lemma_filter_none(self.sessions@.take(0), valid);
        }
        while i < self.sessions.len()
            invariant
                i <= self.sessions@.len(),
                valid == counts_in_statistics(),
                found@.len() == self.sessions@.take(i as int).filter(valid).len(),
                forall|k: int|
                    0 <= k < found@.len() ==> *(#[trigger] found@[k]) == self.sessions@.take(
                        i as int,
                    ).filter(valid)[k],
            decreases self.sessions@.len() - i,
        {
            let session = &self.sessions[i];
            proof {
                lemma_filter_step(self.sessions@, valid, i as int);
            }
            if session.is_valid() {
                found.push(session);
            }
            i += 1;
        }
        assert(self.sessions@.take(i as int) =~= self.sessions@);
        found
    }

    /// The sessions that count in statistics, in order.
    pub fn iter(&self) -> (r: Vec<&ReadingSession>)
        ensures
            r@.len() == self.valid_items().len(),
            forall|i: int| 0 <= i < r@.len() ==> *(#[trigger] r@[i]) == self.valid_items()[i],
    {
        self.valid_sessions()
    }
}

/// The test of [`ReadingSessionView::is_valid`] as a function on sessions.
pub open spec fn counts_in_statistics() -> spec_fn(ReadingSession) -> bool {
    |s: ReadingSession| s@.is_valid()
}

} // verus!
