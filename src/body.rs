use vstd::prelude::*;
use crate::native::{decode_lossy, lossy_text};

verus! {

/// The next piece of `body` that a read at `pos` into a buffer of `size`
/// bytes hands out: as much as fits, never past the end.
pub open spec fn chunk(body: Seq<u8>, pos: int, size: nat) -> Seq<u8> {
    if pos + size <= body.len() {
        body.subrange(pos, pos + size)
    } else {
        body.subrange(pos, body.len() as int)
    }
}

/// Sum of a sequence of buffer sizes.
pub open spec fn total(sizes: Seq<nat>) -> nat
    decreases sizes.len(),
{
    if sizes.len() == 0 {
        0
    } else {
        sizes[0] + total(sizes.drop_first())
    }
}

/// Everything that successive reads, starting at `pos`, into buffers of the
/// given sizes hand out, in order.
pub open spec fn sent(body: Seq<u8>, pos: int, sizes: Seq<nat>) -> Seq<u8>
    decreases sizes.len(),
{
    if sizes.len() == 0 {
        Seq::empty()
    } else {
        let c = chunk(body, pos, sizes[0]);
        c + sent(body, pos + c.len(), sizes.drop_first())
    }
}

/// Streaming an upload body in chunks loses and repeats nothing: whatever
/// the buffer sizes the transfer offers, the reads together hand out the body
/// from `pos` on, cut only where the buffers run out, so that the full body
/// goes out as soon as the buffers offered add up to what is left of it.
pub proof fn lemma_chunked_reads_send_body(body: Seq<u8>, pos: int, sizes: Seq<nat>)
    requires
        0 <= pos <= body.len(),
    ensures
        pos + total(sizes) <= body.len() ==> sent(body, pos, sizes) == body.subrange(
            pos,
            pos + total(sizes),
        ),
        pos + total(sizes) >= body.len() ==> sent(body, pos, sizes) == body.subrange(
            pos,
            body.len() as int,
        ),
    decreases sizes.len(),
{
    if sizes.len() > 0 {
        let c = chunk(body, pos, sizes[0]);
        let rest = sizes.drop_first();
        lemma_chunked_reads_send_body(body, pos + c.len(), rest);
        if pos + sizes[0] <= body.len() {
            assert(sent(body, pos, sizes) =~= body.subrange(
                pos,
                if pos + total(sizes) <= body.len() {
                    pos + total(sizes)
                } else {
                    body.len() as int
                },
            ));
        } else {
            assert(sent(body, pos + c.len(), rest) =~= Seq::empty());
            assert(sent(body, pos, sizes) =~= body.subrange(pos, body.len() as int));
        }
    } else {
        assert(sent(body, pos, sizes) =~= body.subrange(pos, pos));
    }
}

/// The upload side of a transfer: the request body and how much of it has
/// been handed out so far.
pub struct BodyReader {
    body: Vec<u8>,
    pos: usize,
}

impl BodyReader {
    pub closed spec fn spec_body(&self) -> Seq<u8> {
        self.body@
    }

    pub closed spec fn spec_pos(&self) -> int {
        self.pos as int
    }

    pub open spec fn wf(&self) -> bool {
        0 <= self.spec_pos() <= self.spec_body().len()
    }

    /// A reader that has handed out nothing yet; an empty body reads as
    /// end-of-stream at once.
    pub fn new(body: Vec<u8>) -> (r: BodyReader)
        ensures
            r.wf(),
            r.spec_body() == body@,
            r.spec_pos() == 0,
    {
        BodyReader { body, pos: 0 }
    }

    /// Bytes of the body not yet handed out.
    pub fn remaining(&self) -> (r: usize)
        requires
            self.wf(),
        ensures
            r == self.spec_body().len() - self.spec_pos(),
    {
        self.body.len() - self.pos
    }

    /// Copies the next piece of the body to the front of `buf` and returns
    /// its length; 0 means the body is exhausted (or `buf` is empty).
    pub fn read_into(&mut self, buf: &mut [u8]) -> (n: usize)
        requires
            old(self).wf(),
        ensures
            final(self).wf(),
            final(self).spec_body() == old(self).spec_body(),
            n == chunk(old(self).spec_body(), old(self).spec_pos(), old(buf)@.len()).len(),
            final(self).spec_pos() == old(self).spec_pos() + n,
            final(buf)@.len() == old(buf)@.len(),
            final(buf)@.subrange(0, n as int) == chunk(
                old(self).spec_body(),
                old(self).spec_pos(),
                old(buf)@.len(),
            ),
            final(buf)@.subrange(n as int, final(buf)@.len() as int) == old(buf)@.subrange(
                n as int,
                old(buf)@.len() as int,
            ),
    {
        let len = self.body.len();
        let left = len - self.pos;
        let n: usize = if buf.len() < left {
            buf.len()
        } else {
            left
        };
        let ghost start = self.pos as int;
        let ghost orig = buf@;
        let mut i: usize = 0;
        while i < n
            invariant
                i <= n,
                n <= buf@.len(),
                buf@.len() == orig.len(),
                self.pos as int == start,
                start + n <= self.body@.len(),
                self.body@.len() == len,
                forall|k: int| 0 <= k < i ==> buf@[k] == self.body@[start + k],
                forall|k: int| i <= k < buf@.len() ==> buf@[k] == orig[k],
            decreases n - i,
        {
            buf[i] = self.body[self.pos + i];
            i = i + 1;
        }
        self.pos = self.pos + n;
        assert(buf@.subrange(0, n as int) =~= chunk(self.body@, start, orig.len()));
        assert(buf@.subrange(n as int, buf@.len() as int) =~= orig.subrange(
            n as int,
            orig.len() as int,
        ));
        n
    }
}

/// Write side of a transfer: appends a received piece of the body and
/// reports it fully taken.
pub fn append_body(body: &mut Vec<u8>, data: &[u8]) -> (n: usize)
    ensures
        final(body)@ == old(body)@ + data@,
        n == data@.len(),
{
    body.extend_from_slice(data);
    data.len()
}

/// Header side of a transfer: keeps the received line verbatim, decoded
/// permissively, and never aborts the transfer.
pub fn record_header(headers: &mut Vec<String>, data: &[u8]) -> (r: bool)
    ensures
        r,
        final(headers)@.len() == old(headers)@.len() + 1,
        final(headers)@.subrange(0, old(headers)@.len() as int) == old(headers)@,
        final(headers)@.last()@ == lossy_text(data@),
{
    let line = decode_lossy(data);
    headers.push(line);
    assert(headers@.subrange(0, old(headers)@.len() as int) =~= old(headers)@);
    true
}

} // verus!
