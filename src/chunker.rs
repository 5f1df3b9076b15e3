//! The chunk distributor: cuts the stream of lines read from a file into
//! batches of at most the chunk size, to be pushed onto the bounded queue.
use vstd::prelude::*;

use crate::model::{concat_all, lines_of};

verus! {

/// Buffers lines and hands out a batch each time the buffer is full.
pub struct Chunker {
    chunk_size: usize,
    pending: Vec<String>,
    /// Every line received so far.
    received: Ghost<Seq<Seq<char>>>,
    /// Every batch handed out so far, in order.
    sent: Ghost<Seq<Seq<Seq<char>>>>,
}

impl Chunker {
    pub closed spec fn chunk_size(&self) -> nat {
        self.chunk_size as nat
    }

    /// The lines buffered for the next batch.
    pub closed spec fn pending(&self) -> Seq<Seq<char>> {
        lines_of(self.pending@)
    }

    pub closed spec fn received(&self) -> Seq<Seq<char>> {
        self.received@
    }

    pub closed spec fn sent(&self) -> Seq<Seq<Seq<char>>> {
        self.sent@
    }

    /// Lines per full batch: the chunk size, where a chunk size of 0 sends
    /// every line alone.
    pub open spec fn capacity(&self) -> nat {
        if self.chunk_size() == 0 {
            1
        } else {
            self.chunk_size()
        }
    }

    /// The lines received are the batches sent followed by the buffer; every
    /// batch sent is full, and the buffer is not.
    pub open spec fn wf(&self) -> bool {
        &&& concat_all(self.sent()) + self.pending() == self.received()
        &&& self.pending().len() < self.capacity()
        &&& forall|k: int| 0 <= k < self.sent().len() ==> #[trigger] self.sent()[k].len() == self.capacity()
    }

    pub fn new(chunk_size: usize) -> (r: Chunker)
        ensures
            r.wf(),
            r.chunk_size() == chunk_size,
            r.received() == Seq::<Seq<char>>::empty(),
            r.sent() == Seq::<Seq<Seq<char>>>::empty(),
    {
        let r = Chunker {
            chunk_size,
            pending: Vec::new(),
            received: Ghost(Seq::empty()),
            sent: Ghost(Seq::empty()),
        };
        proof {
            assert(r.pending() =~= Seq::<Seq<char>>::empty());
            assert(concat_all(r.sent()) + r.pending() =~= r.received());
        }
        r
    }

    /// Takes the next line; hands out the buffered batch when it has become full.
    pub fn push(&mut self, line: String) -> (r: Option<Vec<String>>)
        requires
            old(self).wf(),
        ensures
            final(self).wf(),
            final(self).chunk_size() == old(self).chunk_size(),
            final(self).received() == old(self).received().push(line@),
            r is Some == (old(self).pending().len() + 1 == old(self).capacity()),
            match r {
                Some(batch) => {
                    &&& lines_of(batch@) == old(self).pending().push(line@)
                    &&& final(self).sent() == old(self).sent().push(lines_of(batch@))
                    &&& final(self).pending().len() == 0
                },
                None => {
                    &&& final(self).sent() == old(self).sent()
                    &&& final(self).pending() == old(self).pending().push(line@)
                },
            },
    {
        let ghost line_view = line@;
        let ghost before = self.pending@;
        self.pending.push(line);
        proof {
            self.received@ = self.received@.push(line_view);
            assert(self.pending@ == before.push(self.pending@.last()));
            assert(lines_of(self.pending@) =~= lines_of(before).push(line_view));
        }
        if self.pending.len() >= self.chunk_size {
            let mut batch: Vec<String> = Vec::new();
            core::mem::swap(&mut batch, &mut self.pending);
            proof {
                self.sent@ = self.sent@.push(lines_of(batch@));
                assert(self.sent@.drop_last() =~= old(self).sent());
                assert(lines_of(self.pending@) =~= Seq::<Seq<char>>::empty());
                assert(concat_all(self.sent()) + self.pending() =~= self.received());
            }
            Some(batch)
        } else {
            proof {
                assert(concat_all(self.sent()) + self.pending() =~= self.received());
            }
            None
        }
    }

    /// Ends the stream: hands out the buffered lines as a last batch, if any.
    /// The batches handed out, joined in order, are then exactly the lines received.
    pub fn finish(self) -> (r: Option<Vec<String>>)
        requires
            self.wf(),
        ensures
            r is Some == (self.pending().len() > 0),
            match r {
                Some(batch) => {
                    &&& lines_of(batch@) == self.pending()
                    &&& 0 < batch@.len() < self.capacity()
                    &&& concat_all(self.sent().push(lines_of(batch@))) == self.received()
                },
                None => concat_all(self.sent()) == self.received(),
            },
    {
        if self.pending.len() == 0 {
            proof {
                assert(concat_all(self.sent()) + self.pending() =~= concat_all(self.sent()));
            }
            None
        } else {
            proof {
                let batch = lines_of(self.pending@);
                assert(self.sent().push(batch).drop_last() =~= self.sent());
            }
            Some(self.pending)
        }
    }
}

} // verus!
