//! The log sink: an ordered, append-only record of the messages that the
//! operations emit.

use vstd::prelude::*;

verus! {

/// The texts of a sequence of strings, in order.
pub open spec fn texts(strings: Seq<String>) -> Seq<Seq<char>> {
    strings.map_values(|s: String| s@)
}

/// A sink that keeps every message it receives, in the order of arrival.
pub struct LogSink {
    entries: Vec<String>,
}

impl View for LogSink {
    type V = Seq<Seq<char>>;

    /// The messages received so far, oldest first.
    closed spec fn view(&self) -> Seq<Seq<char>> {
        texts(self.entries@)
    }
}

impl LogSink {
    /// A sink that has received nothing.
    pub fn new() -> (sink: LogSink)
        ensures
            sink@ == Seq::<Seq<char>>::empty(),
    {
        LogSink { entries: Vec::new() }
    }

    /// Receives one message: it becomes the last entry, and the earlier ones
    /// stay as they were.
    pub fn record(&mut self, message: String)
        ensures
            final(self)@ == old(self)@.push(message@),
    {
        self.entries.push(message);
    }

    /// The messages received so far, oldest first.
    pub fn messages(&self) -> (entries: &Vec<String>)
        ensures
            texts(entries@) == self@,
    {
        &self.entries
    }
}

} // verus!
