//! A small queue of notification messages for the presentation layer.
//!
//! Callers push messages as they happen; the presentation layer drains them
//! one at a time, most recent first. The queue is plain data: it performs no
//! I/O itself.

use vstd::prelude::*;

verus! {

/// A stack of pending notification messages.
pub struct NotifyQueue {
    inner: Vec<String>,
}

impl NotifyQueue {
    /// The queue's contents, most recent message last.
    pub closed spec fn view(&self) -> Seq<Seq<char>> {
        self.inner@.map_values(|s: String| s@)
    }

    /// Removes and returns the most recent message, or `None` when the
    /// queue is empty.
    pub fn next(&mut self) -> (r: Option<String>)
        ensures
            old(self)@.len() == 0 ==> r is None && final(self)@ == old(self)@,
            old(self)@.len() > 0 ==> (r matches Some(s) && s@ == old(self)@.last()
                && final(self)@ == old(self)@.drop_last()),
    {
        let r = self.inner.pop();
        proof {
            if old(self)@.len() > 0 {
                assert(self@ =~= old(self)@.drop_last());
            } else {
                assert(self@ =~= old(self)@);
            }
        }
        r
    }

    /// Appends a message.
    pub fn push(&mut self, item: String)
        ensures
            final(self)@ == old(self)@.push(item@),
    {
        self.inner.push(item);
        proof {
            assert(self@ =~= old(self)@.push(item@));
        }
    }
}

impl Default for NotifyQueue {
    /// A fresh queue holds no messages.
    fn default() -> (q: Self)
        ensures
            q@.len() == 0,
    {
        NotifyQueue { inner: Vec::new() }
    }
}

} // verus!
