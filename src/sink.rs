use vstd::prelude::*;

use crate::paths::{segment_path, segment_path_spec};

verus! {

/// Configuration of the file sink: an optional path template and the overwrite policy.
#[derive(Debug)]
pub struct Args {
    pub path: Option<String>,
    pub overwrite: bool,
}

impl Args {
    pub fn new(path: Option<String>, overwrite: bool) -> (r: Args)
        ensures
            r.path == path,
            r.overwrite == overwrite,
    {
        Args { path, overwrite }
    }
}

impl Default for Args {
    /// No path, so no sink; no overwrite.
    fn default() -> (r: Args)
        ensures
            r.path is None,
            !r.overwrite,
    {
        Args { path: None, overwrite: false }
    }
}

/// The abstract state of a segmented file sink.
pub struct SinkState {
    pub base_path: Seq<char>,
    pub channel: Seq<char>,
    pub overwrite: bool,
    pub header: Option<Seq<u8>>,
    /// Whether a segment is open.
    pub open: bool,
    /// The index of the next segment to attempt.
    pub segment_index: u64,
}

/// Addition that stops at `u64::MAX` instead of wrapping.
pub open spec fn sat_add(a: u64, b: u64) -> u64 {
    if a + b > u64::MAX { u64::MAX } else { (a + b) as u64 }
}

/// The state a sink starts in.
pub open spec fn fresh_state(base_path: Seq<char>, channel: Seq<char>, overwrite: bool) -> SinkState {
    SinkState { base_path, channel, overwrite, header: None, open: false, segment_index: 0 }
}

/// The state after the header has been set.
pub open spec fn with_header(s: SinkState, header: Seq<u8>) -> SinkState {
    SinkState { header: Some(header), ..s }
}

/// The state after the current segment, if any, has been released.
pub open spec fn released(s: SinkState) -> SinkState {
    SinkState { open: false, ..s }
}

/// The state after a segment with the given index has been created.
pub open spec fn opened(s: SinkState, index: u64) -> SinkState {
    SinkState { open: true, segment_index: sat_add(index, 1), ..s }
}

/// The index tried at the given attempt of a segment creation.
pub open spec fn candidate_index(s: SinkState, attempt: u64) -> u64 {
    sat_add(s.segment_index, attempt)
}

/// The attempt that follows a failed one: the next index, only where creation
/// was exclusive and failed because the name was taken.
pub open spec fn next_attempt(s: SinkState, attempt: u64, already_exists: bool) -> Option<u64> {
    if !s.overwrite && already_exists {
        Some(sat_add(attempt, 1))
    } else {
        None
    }
}

/// The bytes that a new segment starts with.
pub open spec fn segment_prefix(s: SinkState) -> Seq<u8> {
    match s.header {
        Some(h) => h,
        None => Seq::empty(),
    }
}

/// One creation of a segment in progress: the timestamp taken when it began,
/// and how many names have been tried.
pub struct Attempt {
    pub timestamp: String,
    pub number: u64,
}

/// A path to create a segment at, with its index and how to create it:
/// exclusively (failing where the name exists) or by create-or-truncate.
pub struct Candidate {
    pub path: String,
    pub index: u64,
    pub exclusive: bool,
}

/// An ASCII decimal digit.
pub open spec fn is_digit(c: char) -> bool {
    '0' <= c && c <= '9'
}

/// A local date-time to the second, `YYYY-MM-DD_HH-MM-SS`, for a year of
/// four digits.
pub open spec fn is_plain_timestamp(t: Seq<char>) -> bool {
    &&& t.len() == 19
    &&& forall|i: int|
        0 <= i < 19 ==> if i == 4 || i == 7 || i == 13 || i == 16 {
            t[i] == '-'
        } else if i == 10 {
            t[i] == '_'
        } else {
            is_digit(t[i])
        }
}

/// What a segment timestamp looks like: `YYYY-MM-DD_HH-MM-SS`, or, for a year
/// past four digits, the same with a signed, longer year in front.
pub open spec fn is_timestamp(t: Seq<char>) -> bool {
    &&& t.len() >= 19
    &&& forall|i: int| 0 <= i < t.len() ==> is_digit(t[i]) || t[i] == '-' || t[i] == '_' || t[i] == '+'
    &&& t[0] != '+' ==> is_plain_timestamp(t)
}

/// Relies on `chrono::Local::now` and `DelayedFormat`'s rendering: the local
/// wall-clock time, to the second, as `YYYY-MM-DD_HH-MM-SS`. chrono writes
/// the year with four digits from 0 to 9999 and with a sign outside that
/// range; every other field takes two digits.
#[verifier::external_body]
fn local_timestamp() -> (r: String)
    ensures
        is_timestamp(r@),
{
    chrono::Local::now().format("%Y-%m-%d_%H-%M-%S").to_string()
}

/// A sink that writes a byte stream to a series of segment files.
///
/// It holds the decisions: which names to try, when a segment is open, what a
/// new segment starts with. The file handles live with whoever performs the I/O.
pub struct File {
    base_path: String,
    channel: String,
    overwrite: bool,
    header: Option<Vec<u8>>,
    open: bool,
    segment_index: u64,
}

impl View for File {
    type V = SinkState;

    closed spec fn view(&self) -> SinkState {
        SinkState {
            base_path: self.base_path@,
            channel: self.channel@,
            overwrite: self.overwrite,
            header: match self.header {
                Some(h) => Some(h@),
                None => None,
            },
            open: self.open,
            segment_index: self.segment_index,
        }
    }
}

fn copy_bytes(b: &[u8]) -> (r: Vec<u8>)
    ensures
        r@ == b@,
{
    let mut r: Vec<u8> = Vec::new();
    let mut i: usize = 0;
    while i < b.len()
        invariant
            i <= b@.len(),
            r@ == b@.subrange(0, i as int),
        decreases b@.len() - i,
    {
        r.push(b[i]);
        proof {
            assert(b@.subrange(0, i + 1) =~= b@.subrange(0, i as int).push(b@[i as int]));
        }
        i = i + 1;
    }
    assert(b@.subrange(0, b@.len() as int) =~= b@);
    r
}

impl File {
    /// A sink for `channel` under the configured path template, or `None`
    /// where no path is configured. Nothing is created on disk here.
    pub fn new(args: &Args, channel: &str) -> (r: Option<File>)
        ensures
            args.path is None ==> r is None,
            args.path matches Some(p) ==> r matches Some(f) && f@ == fresh_state(
                p@,
                channel@,
                args.overwrite,
            ),
    {
        match &args.path {
            None => None,
            Some(p) => Some(
                File {
                    base_path: p.clone(),
                    channel: channel.to_owned(),
                    overwrite: args.overwrite,
                    header: None,
                    open: false,
                    segment_index: 0,
                },
            ),
        }
    }

    /// Stores the header that every segment created from now on starts with.
    /// A segment already open keeps what it has.
    pub fn set_header(&mut self, header: &[u8])
        ensures
            final(self)@ == with_header(old(self)@, header@),
    {
        self.header = Some(copy_bytes(header));
    }

    /// The header to write at the start of a new segment, empty where none is set.
    pub fn segment_prefix(&self) -> (r: Vec<u8>)
        ensures
            r@ == segment_prefix(self@),
    {
        match &self.header {
            Some(h) => copy_bytes(h.as_slice()),
            None => Vec::new(),
        }
    }

    /// Whether a segment is open; a write needs one to be created first where not.
    pub fn is_open(&self) -> (r: bool)
        ensures
            r == self@.open,
    {
        self.open
    }

    /// The index of the next segment to attempt.
    pub fn segment_index(&self) -> (r: u64)
        ensures
            r == self@.segment_index,
    {
        self.segment_index
    }

    /// Begins the creation of a segment: the timestamp is taken once, here,
    /// and kept for every name tried.
    pub fn begin_segment(&self) -> (r: Attempt)
        ensures
            r.number == 0,
            is_timestamp(r.timestamp@),
    {
        Attempt { timestamp: local_timestamp(), number: 0 }
    }

    /// The path to try at the given attempt, and how to create it.
    pub fn candidate(&self, attempt: &Attempt) -> (r: Candidate)
        ensures
            r.index == candidate_index(self@, attempt.number),
            r.path@ == segment_path_spec(
                self@.base_path,
                self@.channel,
                attempt.timestamp@,
                r.index,
            ),
            r.exclusive == !self@.overwrite,
    {
        let index = self.segment_index.saturating_add(attempt.number);
        let path = segment_path(self.base_path.as_str(), self.channel.as_str(), attempt.timestamp.as_str(), index);
        Candidate { path, index, exclusive: !self.overwrite }
    }

    /// What follows a failed creation: the next attempt, with the same timestamp,
    /// where creation was exclusive and the name was taken; `None` where the
    /// failure is final.
    pub fn retry_after(&self, attempt: &Attempt, already_exists: bool) -> (r: Option<Attempt>)
        ensures
            next_attempt(self@, attempt.number, already_exists) matches Some(n) ==> r matches Some(a)
                && a.number == n && a.timestamp@ == attempt.timestamp@,
            next_attempt(self@, attempt.number, already_exists) is None ==> r is None,
    {
        if !self.overwrite && already_exists {
            Some(Attempt { timestamp: attempt.timestamp.clone(), number: attempt.number.saturating_add(1) })
        } else {
            None
        }
    }

    /// Records that the segment with `index` was created and its header written.
    /// Returns whether it is the first segment this sink has created.
    pub fn segment_opened(&mut self, index: u64) -> (first: bool)
        requires
            old(self)@.segment_index <= index,
        ensures
            final(self)@ == opened(old(self)@, index),
            first == (old(self)@.segment_index == 0),
    {
        let first = self.segment_index == 0;
        self.open = true;
        self.segment_index = index.saturating_add(1);
        first
    }

    /// Releases the current segment, if any; the next write creates a new one.
    /// Returns whether one was open, and so whether there was anything to flush.
    pub fn flush(&mut self) -> (was_open: bool)
        ensures
            final(self)@ == released(old(self)@),
            was_open == old(self)@.open,
    {
        let was_open = self.open;
        self.open = false;
        was_open
    }
}

} // verus!
