use vstd::prelude::*;
use crate::decode::{decode_bytes, decoded, TextEncoding};

verus! {

/// Which of the child's two output streams a capture drains.
#[derive(Clone, Copy, Debug, PartialEq, Eq, Structural)]
pub enum OutputStream {
    Stdout,
    Stderr,
}

/// What a drain task does after handing one read to its capture.
#[derive(Clone, Copy, Debug, PartialEq, Eq, Structural)]
pub enum DrainStep {
    /// The stream reached its end: the task stops.
    Finished,
    /// The chunk was appended: read again.
    Appended,
    /// The chunk was appended and one progress notification is due: read again.
    AppendedWithProgress,
}

/// The text one chunk contributes to a capture: its decoding and a line break.
pub open spec fn piece(encoding: TextEncoding, chunk: Seq<u8>) -> Seq<char> {
    decoded(encoding, chunk) + seq!['\n']
}

/// The captured text after the non-empty chunks `chunks` were read, in order.
pub open spec fn captured(encoding: TextEncoding, chunks: Seq<Seq<u8>>) -> Seq<char>
    decreases chunks.len(),
{
    if chunks.len() == 0 {
        Seq::empty()
    } else {
        captured(encoding, chunks.drop_last()) + piece(encoding, chunks.last())
    }
}

/// The text `c` holds once it is handed the non-empty chunks `chunks`, in order.
pub open spec fn fed_text(c: StreamCapture, chunks: Seq<Seq<u8>>) -> Seq<char> {
    c.spec_text() + captured(c.spec_encoding(), chunks)
}

/// The step a drain task takes on a read of `chunk` from `stream`.
pub open spec fn step_for(stream: OutputStream, chunk: Seq<u8>) -> DrainStep {
    if chunk.len() == 0 {
        DrainStep::Finished
    } else if stream == OutputStream::Stdout {
        DrainStep::AppendedWithProgress
    } else {
        DrainStep::Appended
    }
}

/// The accumulated text of one output stream during one execution.
pub struct StreamCapture {
    stream: OutputStream,
    encoding: TextEncoding,
    text: String,
    finished: bool,
}

impl StreamCapture {
    pub closed spec fn spec_stream(&self) -> OutputStream {
        self.stream
    }

    pub closed spec fn spec_encoding(&self) -> TextEncoding {
        self.encoding
    }

    pub closed spec fn spec_text(&self) -> Seq<char> {
        self.text@
    }

    pub closed spec fn spec_finished(&self) -> bool {
        self.finished
    }

    /// A fresh, empty capture: nothing of an earlier execution is in it.
    pub fn new(stream: OutputStream, encoding: TextEncoding) -> (r: Self)
        ensures
            r.spec_stream() == stream,
            r.spec_encoding() == encoding,
            r.spec_text() == Seq::<char>::empty(),
            !r.spec_finished(),
    {
        StreamCapture { stream, encoding, text: String::new(), finished: false }
    }

    /// Hands the result of one read to the capture. An empty read is the end
    /// of the stream; any other chunk is decoded and appended with a line break.
    pub fn on_read(&mut self, chunk: &[u8]) -> (step: DrainStep)
        requires
            !old(self).spec_finished(),
        ensures
            step == step_for(old(self).spec_stream(), chunk@),
            final(self).spec_stream() == old(self).spec_stream(),
            final(self).spec_encoding() == old(self).spec_encoding(),
            final(self).spec_finished() == (chunk@.len() == 0),
            chunk@.len() == 0 ==> final(self).spec_text() == old(self).spec_text(),
            chunk@.len() > 0 ==> final(self).spec_text() == old(self).spec_text() + piece(
                old(self).spec_encoding(),
                chunk@,
            ),
            chunk@.len() > 0 ==> final(self).spec_text() == fed_text(*old(self), seq![chunk@]),
    {
        if chunk.len() == 0 {
            self.finished = true;
            return DrainStep::Finished;
        }
        let text = decode_bytes(self.encoding, chunk);
        self.text.append(text.as_str());
        self.text.append("\n");
        proof {
            reveal_strlit("\n");
            assert("\n"@ =~= seq!['\n']);
            let one = seq![chunk@];
            assert(one.drop_last() =~= Seq::<Seq<u8>>::empty());
            assert(one.last() == chunk@);
            assert(captured(self.encoding, Seq::<Seq<u8>>::empty()) =~= Seq::<char>::empty());
            assert(captured(self.encoding, one) =~= piece(self.encoding, chunk@));
        }
        match self.stream {
            OutputStream::Stdout => DrainStep::AppendedWithProgress,
            OutputStream::Stderr => DrainStep::Appended,
        }
    }

    /// Ends the capture after a read error: what was read so far is kept.
    pub fn on_read_error(&mut self)
        ensures
            final(self).spec_stream() == old(self).spec_stream(),
            final(self).spec_encoding() == old(self).spec_encoding(),
            final(self).spec_text() == old(self).spec_text(),
            final(self).spec_finished(),
    {
        self.finished = true;
    }

    pub fn is_finished(&self) -> (r: bool)
        ensures
            r == self.spec_finished(),
    {
        self.finished
    }

    pub fn text(&self) -> (r: &str)
        ensures
            r@ == self.spec_text(),
    {
        self.text.as_str()
    }

    pub fn into_text(self) -> (r: String)
        ensures
            r@ == self.spec_text(),
    {
        self.text
    }
}

/// Drains a whole sequence of reads into a fresh capture, stopping at the
/// first empty read. Returns the captured text and the number of chunks
/// appended; on standard output that is also the number of progress
/// notifications.
pub fn drain_reads(stream: OutputStream, encoding: TextEncoding, reads: &Vec<Vec<u8>>) -> (r: (
    String,
    usize,
))
    ensures
        r.1 <= reads@.len(),
        forall|j: int| 0 <= j < r.1 ==> #[trigger] reads@[j]@.len() > 0,
        r.1 == reads@.len() || reads@[r.1 as int]@.len() == 0,
        r.0@ == captured(encoding, reads@.take(r.1 as int).map_values(|c: Vec<u8>| c@)),
{
    let mut capture = StreamCapture::new(stream, encoding);
    let mut i: usize = 0;
    while i < reads.len()
        invariant
            i <= reads@.len(),
            forall|j: int| 0 <= j < i ==> #[trigger] reads@[j]@.len() > 0,
            capture.spec_encoding() == encoding,
            capture.spec_stream() == stream,
            !capture.spec_finished(),
            capture.spec_text() == captured(
                encoding,
                reads@.take(i as int).map_values(|c: Vec<u8>| c@),
            ),
        decreases reads@.len() - i,
    {
        let chunk = reads[i].as_slice();
        if chunk.len() == 0 {
            return (capture.into_text(), i);
        }
        capture.on_read(chunk);
        proof {
            let prev = reads@.take(i as int).map_values(|c: Vec<u8>| c@);
            let next = reads@.take(i + 1).map_values(|c: Vec<u8>| c@);
            assert(next.drop_last() =~= prev);
            assert(next.last() == reads@[i as int]@);
        }
        i = i + 1;
    }
    (capture.into_text(), i)
}

/// Reading chunks `a` and then chunks `b` captures the text of `a` followed by
/// the text of `b`: every chunk is kept, in the order it was read, however
/// much output there is.
pub proof fn lemma_capture_in_read_order(encoding: TextEncoding, a: Seq<Seq<u8>>, b: Seq<Seq<u8>>)
    ensures
        captured(encoding, a + b) == captured(encoding, a) + captured(encoding, b),
    decreases b.len(),
{
    if b.len() == 0 {
        assert(a + b =~= a);
        assert(captured(encoding, b) =~= Seq::<char>::empty());
        assert(captured(encoding, a) + Seq::<char>::empty() =~= captured(encoding, a));
    } else {
        lemma_capture_in_read_order(encoding, a, b.drop_last());
        assert((a + b).drop_last() =~= a + b.drop_last());
        assert((a + b).last() == b.last());
        assert(captured(encoding, a + b.drop_last()) + piece(encoding, b.last()) =~= captured(
            encoding,
            a,
        ) + (captured(encoding, b.drop_last()) + piece(encoding, b.last())));
    }
}

/// Handing a capture the chunks `a` and then the chunks `b` leaves the text
/// it holds after `a`, followed by the text of `b`.
pub proof fn lemma_fed_in_order(c: StreamCapture, a: Seq<Seq<u8>>, b: Seq<Seq<u8>>)
    ensures
        fed_text(c, a + b) == fed_text(c, a) + captured(c.spec_encoding(), b),
{
    lemma_capture_in_read_order(c.spec_encoding(), a, b);
    assert(fed_text(c, a + b) =~= fed_text(c, a) + captured(c.spec_encoding(), b));
}

/// Runs share no output: a capture as `StreamCapture::new` makes it holds no
/// text, so each fresh capture holds exactly the text of the chunks it is
/// handed, and two fresh captures handed the same chunks hold the same text.
pub proof fn lemma_runs_independent(
    first: StreamCapture,
    second: StreamCapture,
    chunks: Seq<Seq<u8>>,
)
    requires
        first.spec_text().len() == 0,
        second.spec_text().len() == 0,
        first.spec_encoding() == second.spec_encoding(),
    ensures
        fed_text(first, chunks) == captured(first.spec_encoding(), chunks),
        fed_text(first, chunks) == fed_text(second, chunks),
{
    assert(fed_text(first, chunks) =~= captured(first.spec_encoding(), chunks));
    assert(fed_text(second, chunks) =~= captured(second.spec_encoding(), chunks));
}

/// The captured text of at least one chunk is never empty: each chunk ends
/// in a line break.
pub proof fn lemma_capture_nonempty(encoding: TextEncoding, chunks: Seq<Seq<u8>>)
    requires
        chunks.len() > 0,
    ensures
        captured(encoding, chunks).len() > 0,
{
    assert(piece(encoding, chunks.last()).len() > 0);
}

} // verus!
