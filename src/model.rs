//! The shared vocabulary: results, stream chunks and the stream sink.

use vstd::prelude::*;

verus! {

/// Text of an optional string.
pub open spec fn opt_text(o: Option<String>) -> Option<Seq<char>> {
    match o {
        Some(s) => Some(s@),
        None => None,
    }
}

/// The outcome of a translation. A missing field was not produced.
#[derive(Debug)]
pub struct TranslateResult {
    pub reasoning: Option<String>,
    pub content: Option<String>,
}

/// What a [`TranslateResult`] holds.
pub struct ResultView {
    pub reasoning: Option<Seq<char>>,
    pub content: Option<Seq<char>>,
}

impl View for TranslateResult {
    type V = ResultView;

    open spec fn view(&self) -> ResultView {
        ResultView { reasoning: opt_text(self.reasoning), content: opt_text(self.content) }
    }
}

/// One element of a translation stream.
#[derive(Debug)]
pub enum TranslateStreamChunk {
    Start,
    Delta(TranslateResult),
    End,
}

/// What a [`TranslateStreamChunk`] holds.
pub enum ChunkView {
    Start,
    Delta(ResultView),
    End,
}

impl View for TranslateStreamChunk {
    type V = ChunkView;

    open spec fn view(&self) -> ChunkView {
        match self {
            TranslateStreamChunk::Start => ChunkView::Start,
            TranslateStreamChunk::Delta(r) => ChunkView::Delta(r@),
            TranslateStreamChunk::End => ChunkView::End,
        }
    }
}

/// The chunks of a sequence, as views.
pub open spec fn chunk_views(s: Seq<TranslateStreamChunk>) -> Seq<ChunkView> {
    s.map_values(|c: TranslateStreamChunk| c@)
}

/// `s` can be continued into a complete stream: it is empty, or it begins
/// with `Start`, holds `Delta` in between, and nothing follows an `End`.
pub open spec fn is_stream_prefix(s: Seq<ChunkView>) -> bool {
    forall|i: int|
        0 <= i < s.len() ==> {
            &&& (i == 0 <==> #[trigger] s[i] is Start)
            &&& (s[i] is End ==> i == s.len() - 1)
        }
}

/// `s` is a whole stream: `Start`, any number of `Delta`, then `End`.
pub open spec fn is_complete_stream(s: Seq<ChunkView>) -> bool {
    &&& s.len() >= 2
    &&& s[0] is Start
    &&& s[s.len() - 1] is End
    &&& forall|i: int| 0 < i < s.len() - 1 ==> #[trigger] s[i] is Delta
}

/// A stream prefix may be followed by `c`.
pub open spec fn accepts(s: Seq<ChunkView>, c: ChunkView) -> bool {
    if s.len() == 0 {
        c is Start
    } else {
        !(s[s.len() - 1] is End) && !(c is Start)
    }
}

/// A stream prefix that ends with `End`.
pub open spec fn is_finished(s: Seq<ChunkView>) -> bool {
    s.len() > 0 && s[s.len() - 1] is End
}

/// A finished stream prefix is a complete stream: it starts with `Start`,
/// ends with `End`, and every chunk between them is a `Delta`.
pub proof fn lemma_finished_stream_is_complete(s: Seq<ChunkView>)
    requires
        is_stream_prefix(s),
        is_finished(s),
    ensures
        is_complete_stream(s),
{
    assert(s[0] is Start);
    assert(s.len() >= 2) by {
        if s.len() == 1 {
            assert(s[0] is End);
        }
    }
    assert forall|i: int| 0 < i < s.len() - 1 implies #[trigger] s[i] is Delta by {
        assert(!(s[i] is Start));
        if s[i] is End {
            assert(i == s.len() - 1);
        }
    }
}

/// Appending an accepted chunk keeps a stream prefix.
pub proof fn lemma_accepts_keeps_prefix(s: Seq<ChunkView>, c: ChunkView)
    requires
        is_stream_prefix(s),
        accepts(s, c),
    ensures
        is_stream_prefix(s.push(c)),
{
    let t = s.push(c);
    assert forall|i: int| 0 <= i < t.len() implies {
        &&& (i == 0 <==> #[trigger] t[i] is Start)
        &&& (t[i] is End ==> i == t.len() - 1)
    } by {
        if i < s.len() {
            assert(t[i] == s[i]);
            if s[i] is End {
                assert(i == s.len() - 1);
            }
        }
    }
}

/// Why a chunk was refused by a [`StreamSink`].
#[derive(Debug)]
pub enum SendError {
    /// The receiving side has closed the stream.
    Closed,
    /// The chunk breaks the order `Start`, `Delta`..., `End`.
    OutOfOrder,
}

/// The receiving end of a translation stream.
///
/// It records the chunks that it accepts, in order, and accepts only those
/// that keep the order `Start`, `Delta`..., `End`. Once closed by its
/// consumer it refuses every chunk, which the producer treats as a hard error.
pub struct StreamSink {
    chunks: Vec<TranslateStreamChunk>,
    closed: bool,
}

impl View for StreamSink {
    type V = Seq<ChunkView>;

    closed spec fn view(&self) -> Seq<ChunkView> {
        chunk_views(self.chunks@)
    }
}

impl StreamSink {
    #[verifier::type_invariant]
    spec fn wf(&self) -> bool {
        is_stream_prefix(chunk_views(self.chunks@))
    }

    /// Whether the consumer has closed this sink.
    pub closed spec fn is_closed(&self) -> bool {
        self.closed
    }

    /// An open sink that has received nothing.
    pub fn new() -> (r: StreamSink)
        ensures
            r@ == Seq::<ChunkView>::empty(),
            !r.is_closed(),
    {
        let r = StreamSink { chunks: Vec::new(), closed: false };
        assert(chunk_views(r.chunks@) =~= Seq::<ChunkView>::empty());
        r
    }

    /// Delivers one chunk.
    pub fn send(&mut self, chunk: TranslateStreamChunk) -> (r: Result<(), SendError>)
        ensures
            final(self).is_closed() == old(self).is_closed(),
            old(self).is_closed() ==> r == Err::<(), SendError>(SendError::Closed),
            !old(self).is_closed() && !accepts(old(self)@, chunk@) ==> r == Err::<(), SendError>(
                SendError::OutOfOrder,
            ),
            r is Ok <==> !old(self).is_closed() && accepts(old(self)@, chunk@),
            r is Ok ==> final(self)@ == old(self)@.push(chunk@),
            r is Err ==> final(self)@ == old(self)@,
    {
        proof {
            use_type_invariant(&*self);
        }
        if self.closed {
            return Err(SendError::Closed);
        }
        let n = self.chunks.len();
        let ok = if n == 0 {
            matches!(chunk, TranslateStreamChunk::Start)
        } else {
            !matches!(self.chunks[n - 1], TranslateStreamChunk::End) && !matches!(
                chunk,
                TranslateStreamChunk::Start
            )
        };
        if !ok {
            return Err(SendError::OutOfOrder);
        }
        proof {
            lemma_accepts_keeps_prefix(chunk_views(self.chunks@), chunk@);
        }
        let mut taken = StreamSink::new();
        std::mem::swap(self, &mut taken);
        let StreamSink { chunks: mut chunks, closed } = taken;
        chunks.push(chunk);
        assert(chunk_views(chunks@) =~= old(self)@.push(chunk@));
        *self = StreamSink { chunks, closed };
        Ok(())
    }

    /// Closes the sink: every later chunk is refused.
    pub fn close(&mut self)
        ensures
            final(self).is_closed(),
            final(self)@ == old(self)@,
    {
        proof {
            use_type_invariant(&*self);
        }
        self.closed = true;
    }

    /// Whether the consumer has closed this sink.
    pub fn receiver_closed(&self) -> (r: bool)
        ensures
            r == self.is_closed(),
    {
        self.closed
    }

    /// Whether the stream has received its `End`.
    pub fn is_finished(&self) -> (r: bool)
        ensures
            r == is_finished(self@),
            is_stream_prefix(self@),
    {
        proof {
            use_type_invariant(self);
        }
        let n = self.chunks.len();
        n > 0 && matches!(self.chunks[n - 1], TranslateStreamChunk::End)
    }

    /// The number of chunks received.
    pub fn len(&self) -> (r: usize)
        ensures
            r == self@.len(),
    {
        self.chunks.len()
    }

    /// The chunks received so far, in order.
    pub fn chunks(&self) -> (r: &Vec<TranslateStreamChunk>)
        ensures
            chunk_views(r@) == self@,
            is_stream_prefix(self@),
    {
        proof {
            use_type_invariant(self);
        }
        &self.chunks
    }

    /// Takes the chunks received so far, in order.
    pub fn into_chunks(self) -> (r: Vec<TranslateStreamChunk>)
        ensures
            chunk_views(r@) == self@,
            is_stream_prefix(self@),
    {
        proof {
            use_type_invariant(&self);
        }
        self.chunks
    }
}

} // verus!
