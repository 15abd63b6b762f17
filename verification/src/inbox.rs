//! Bytes that came in messages of any length and wait to be read.

use vstd::prelude::*;
use std::collections::VecDeque;

verus! {

/// A queue of bytes between a channel that delivers messages and a reader
/// that asks for a number of bytes.
#[derive(Debug)]
pub struct Inbox {
    pub bytes: VecDeque<u8>,
}

impl View for Inbox {
    type V = Seq<u8>;

    /// The bytes that wait, the oldest first.
    open spec fn view(&self) -> Seq<u8> {
        self.bytes@
    }
}

impl Inbox {
    /// An inbox in which nothing waits.
    pub fn new() -> (inbox: Inbox)
        ensures
            inbox@ == Seq::<u8>::empty(),
    {
        Inbox { bytes: VecDeque::new() }
    }

    /// The number of bytes that wait.
    pub fn len(&self) -> (n: usize)
        ensures
            n == self@.len(),
    {
        self.bytes.len()
    }

    /// Takes in the bytes of a message, behind those that wait.
    pub fn extend(&mut self, data: &[u8])
        ensures
            final(self)@ == old(self)@ + data@,
    {
        let mut i: usize = 0;
        while i < data.len()
            invariant
                i <= data.len(),
                self@ == old(self)@ + data@.take(i as int),
            decreases data.len() - i,
        {
            self.bytes.push_back(data[i]);
            i = i + 1;
        }
    }

    /// Fills a buffer with the bytes that wait longest, if there are
    /// enough of them, and says whether it did. An inbox that holds too few
    /// bytes keeps them, and leaves the buffer as it is.
    pub fn deliver(&mut self, data: &mut [u8]) -> (ready: bool)
        ensures
            ready == (old(self)@.len() >= old(data)@.len()),
            final(data)@.len() == old(data)@.len(),
            ready ==> final(data)@ == old(self)@.take(old(data)@.len() as int) && final(self)@
                == old(self)@.skip(old(data)@.len() as int),
            !ready ==> final(data)@ == old(data)@ && final(self)@ == old(self)@,
    {
        let n = data.len();
        if self.bytes.len() < n {
            return false;
        }
        let mut i: usize = 0;
        while i < n
            invariant
                i <= n,
                n == data@.len(),
                n <= old(self)@.len(),
                self@ == old(self)@.skip(i as int),
                data@.take(i as int) == old(self)@.take(i as int),
            decreases n - i,
        {
            let byte = self.bytes.pop_front();
            match byte {
                Some(b) => {
                    data[i] = b;
                },
                None => {},
            }
            i = i + 1;
        }
        true
    }

    /// Drops the bytes that wait.
    pub fn clear(&mut self)
        ensures
            final(self)@ == Seq::<u8>::empty(),
    {
        self.bytes.clear();
    }
}

} // verus!
