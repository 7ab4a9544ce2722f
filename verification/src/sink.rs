//! The logging sink: every line the engine wants on the console is pushed
//! here, and — when a log destination is configured — also appended to a
//! buffer the caller may persist.  Printing and persisting are the caller's
//! business; the sink only records, so its whole behaviour is a contract.

use vstd::prelude::*;
use vstd::string::StringExecFns;

verus! {

/// An optional buffer after `t` was appended to it: `None` stays `None`.
pub open spec fn spec_buffer_after(b: Option<Seq<char>>, t: Seq<char>) -> Option<Seq<char>> {
    match b {
        Some(b0) => Some(b0 + t),
        None => None,
    }
}

/// Accumulates the run's console lines and, optionally, a log buffer.
pub struct LogSink {
    console: Vec<String>,
    buffer: Option<String>,
}

impl LogSink {
    /// The console lines recorded so far, in order.
    pub closed spec fn console_lines(&self) -> Seq<Seq<char>> {
        self.console.deep_view()
    }

    /// The accumulated log buffer, present iff a destination was configured.
    pub closed spec fn buffer_text(&self) -> Option<Seq<char>> {
        match self.buffer {
            Some(ref b) => Some(b@),
            None => None,
        }
    }

    /// An empty sink; it keeps a log buffer iff `keep_buffer`.
    pub fn new(keep_buffer: bool) -> (r: LogSink)
        ensures
            r.console_lines() == Seq::<Seq<char>>::empty(),
            r.buffer_text() == if keep_buffer {
                Some(Seq::<char>::empty())
            } else {
                None::<Seq<char>>
            },
    {
        let r = LogSink {
            console: Vec::new(),
            buffer: if keep_buffer {
                Some(String::new())
            } else {
                None
            },
        };
        proof {
            assert(r.console.deep_view() =~= Seq::<Seq<char>>::empty());
        }
        r
    }

    /// Records `text` when `condition` holds: onto the console, and into the
    /// buffer when one exists.  When `condition` is false nothing changes.
    pub fn emit(&mut self, text: String, condition: bool)
        ensures
            condition ==> final(self).console_lines() == old(self).console_lines().push(text@),
            condition ==> final(self).buffer_text() == match old(self).buffer_text() {
                Some(b) => Some(b + text@),
                None => None::<Seq<char>>,
            },
            !condition ==> *final(self) == *old(self),
    {
        if condition {
            let ghost c0 = self.console.deep_view();
            match &mut self.buffer {
                Some(b) => b.append(text.as_str()),
                None => {},
            }
            self.console.push(text);
            proof {
                assert(self.console.deep_view() =~= c0.push(self.console@.last()@));
            }
        }
    }

    /// Records `text` onto the console only; the buffer never sees it.
    pub fn print_line(&mut self, text: String)
        ensures
            final(self).console_lines() == old(self).console_lines().push(text@),
            final(self).buffer_text() == old(self).buffer_text(),
    {
        let ghost c0 = self.console.deep_view();
        self.console.push(text);
        proof {
            assert(self.console.deep_view() =~= c0.push(self.console@.last()@));
        }
    }

    /// How many console lines have been recorded.
    pub fn console_len(&self) -> (r: usize)
        ensures
            r == self.console_lines().len(),
    {
        self.console.len()
    }

    /// A copy of console line `i`.
    pub fn console_at(&self, i: usize) -> (r: String)
        requires
            i < self.console_lines().len(),
        ensures
            r@ == self.console_lines()[i as int],
    {
        self.console[i].clone()
    }

    /// A copy of the log buffer, if one is kept.
    pub fn buffer_copy(&self) -> (r: Option<String>)
        ensures
            match r {
                Some(b) => self.buffer_text() == Some(b@),
                None => self.buffer_text() is None,
            },
    {
        match &self.buffer {
            Some(b) => Some(b.clone()),
            None => None,
        }
    }
}

} // verus!
