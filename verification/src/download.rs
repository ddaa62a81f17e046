//! Bookkeeping for a download received in chunks: the bytes so far, and the
//! progress that the progress bar shows.

use vstd::prelude::*;

verus! {

/// A download in progress.
pub struct Download {
    content: Vec<u8>,
    total: u64,
}

impl Download {
    /// The bytes received so far.
    pub closed spec fn received(&self) -> Seq<u8> {
        self.content@
    }

    /// The length announced by the server, `0` when it announced none.
    pub closed spec fn expected_total(&self) -> u64 {
        self.total
    }

    /// Starts a download whose response announced `content_length` (if any).
    pub fn new(content_length: Option<u64>) -> (res: Download)
        ensures
            res.received() == Seq::<u8>::empty(),
            res.expected_total() == (match content_length {
                Some(n) => n,
                None => 0,
            }),
    {
        let total: u64 = match content_length {
            Some(n) => n,
            None => 0,
        };
        Download { content: Vec::new(), total }
    }

    /// The length that the progress bar is sized to.
    pub fn total(&self) -> (res: u64)
        ensures
            res == self.expected_total(),
    {
        self.total
    }

    /// The number of bytes received so far: the progress bar's position.
    pub fn position(&self) -> (res: usize)
        ensures
            res == self.received().len(),
    {
        self.content.len()
    }

    /// Appends a chunk at the end of the content; returns by how much the
    /// progress bar advances (the chunk's length).
    pub fn write_with_progress(&mut self, chunk: Vec<u8>) -> (advance: u64)
        ensures
            final(self).received() == old(self).received() + chunk@,
            final(self).expected_total() == old(self).expected_total(),
            advance == chunk@.len(),
    {
        let mut chunk = chunk;
        let advance: u64 = chunk.len() as u64;
        self.content.append(&mut chunk);
        advance
    }

    /// Ends the download and hands over the content.
    pub fn finish(self) -> (res: Vec<u8>)
        ensures
            res@ == self.received(),
    {
        self.content
    }
}

/// The concatenation of a sequence of chunks, in order.
pub open spec fn concat_chunks(chunks: Seq<Seq<u8>>) -> Seq<u8>
    decreases chunks.len(),
{
    if chunks.len() == 0 {
        Seq::empty()
    } else {
        concat_chunks(chunks.drop_last()) + chunks.last()
    }
}

/// Writing chunks one after another leaves the content they form together:
/// when each download in `states[1..]` is the one before it after
/// `write_with_progress` of the corresponding chunk, the last one has received
/// the first one's bytes followed by all the chunks in order.
pub proof fn lemma_chunks_accumulate(states: Seq<Download>, chunks: Seq<Seq<u8>>)
    requires
        states.len() == chunks.len() + 1,
        forall|i: int|
            0 <= i < chunks.len() ==> #[trigger] states[i + 1].received() == states[i].received()
                + chunks[i],
    ensures
        states.last().received() == states[0].received() + concat_chunks(chunks),
    decreases chunks.len(),
{
    if chunks.len() == 0 {
        assert(states[0].received() + concat_chunks(chunks) =~= states[0].received());
    } else {
        let n: int = chunks.len() - 1;
        lemma_chunks_accumulate(states.drop_last(), chunks.drop_last());
        assert(states[n + 1].received() == states[n].received() + chunks[n]);
        assert(states.drop_last().last() == states[n]);
        assert(states[0].received() + concat_chunks(chunks) =~= (states[0].received()
            + concat_chunks(chunks.drop_last())) + chunks.last());
    }
}

} // verus!
