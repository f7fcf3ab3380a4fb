//! The capability that every backend provides, and the two adapters that
//! let a backend implement only the primitive that suits it.

use vstd::prelude::*;
use crate::model::{
    ChunkView, ResultView, SendError, StreamSink, TranslateResult, TranslateStreamChunk,
    chunk_views, is_finished, is_stream_prefix,
};
use crate::task::TranslateTask;

verus! {

/// A translation backend, used the same way whether it runs in this process
/// or behind the boundary.
pub trait Translator: Sized {
    /// Builds a backend from its configuration; fails when a field is
    /// missing or invalid.
    fn new(config: serde_json::Value) -> Result<Self, String>;

    /// The languages accepted as source. An empty list puts no restriction.
    fn get_supported_input_languages(&self) -> Result<Vec<String>, String> {
        Ok(Vec::new())
    }

    /// The languages produced as target. An empty list puts no restriction.
    fn get_supported_output_languages(&self) -> Result<Vec<String>, String> {
        Ok(Vec::new())
    }

    /// Whether the language, given as tag text, is accepted as source.
    fn is_supported_input_language(&self, lang: String) -> Result<bool, String> {
        Ok(true)
    }

    /// Whether the language, given as tag text, is produced as target.
    fn is_supported_output_language(&self, lang: String) -> Result<bool, String> {
        Ok(true)
    }

    /// Translates in one step.
    fn translate(&self, task: TranslateTask) -> Result<TranslateResult, String>;

    /// Translates into `sink`: `Start`, any number of `Delta`, then `End`;
    /// or fails without sending `End`.
    fn translate_stream(&self, task: TranslateTask, sink: &mut StreamSink) -> Result<(), String>;
}

/// The text that a stream's deltas carry, joined in order.
pub open spec fn joined_content(s: Seq<ChunkView>) -> Seq<char>
    decreases s.len(),
{
    if s.len() == 0 {
        Seq::empty()
    } else {
        joined_content(s.drop_last()) + match s.last() {
            ChunkView::Delta(r) => match r.content {
                Some(c) => c,
                None => Seq::empty(),
            },
            _ => Seq::empty(),
        }
    }
}

/// The one-shot result that a stream amounts to: no reasoning, and the
/// content of its deltas joined in order.
pub open spec fn merged_result(s: Seq<ChunkView>) -> ResultView {
    ResultView { reasoning: None, content: Some(joined_content(s)) }
}

/// The one-shot result that a sequence of chunks amounts to.
pub fn collect_stream(chunks: &Vec<TranslateStreamChunk>) -> (r: TranslateResult)
    ensures
        r@ == merged_result(chunk_views(chunks@)),
{
    let ghost views = chunk_views(chunks@);
    let mut content = String::new();
    let n = chunks.len();
    let mut i: usize = 0;
    while i < n
        invariant
            n == chunks@.len(),
            i <= n,
            views == chunk_views(chunks@),
            content@ == joined_content(views.subrange(0, i as int)),
        decreases n - i,
    {
        proof {
            assert(views.subrange(0, i + 1).drop_last() =~= views.subrange(0, i as int));
        }
        match &chunks[i] {
            TranslateStreamChunk::Delta(res) => match &res.content {
                Some(s) => {
                    content.append(s.as_str());
                },
                None => {},
            },
            _ => {},
        }
        i = i + 1;
    }
    assert(views.subrange(0, n as int) =~= views);
    TranslateResult { reasoning: None, content: Some(content) }
}

/// The message for a chunk that a sink refused.
pub fn send_error_message(e: SendError) -> (r: String)
    ensures
        r@ == match e {
            SendError::Closed => "stream receiver closed"@,
            SendError::OutOfOrder => "stream chunk out of order"@,
        },
{
    match e {
        SendError::Closed => String::from_str("stream receiver closed"),
        SendError::OutOfOrder => String::from_str("stream chunk out of order"),
    }
}

/// The one-shot result that a backend's stream amounts to, given the
/// backend's outcome and the chunks it produced: the backend's error, or
/// the joined deltas. A stream that stopped without `End` still counts.
pub fn finish_stream(produced: Result<(), String>, chunks: &Vec<TranslateStreamChunk>) -> (r: Result<
    TranslateResult,
    String,
>)
    ensures
        produced matches Err(e) ==> (r matches Err(f) && f@ == e@),
        produced is Ok ==> (r matches Ok(res) && res@ == merged_result(chunk_views(chunks@))),
{
    if let Err(e) = produced {
        return Err(e);
    }
    Ok(collect_stream(chunks))
}

/// Runs a streaming backend to its end and returns the one-shot result that
/// its stream amounts to, through [`finish_stream`].
pub fn stream2normal<T: Translator>(translator: &T, task: TranslateTask) -> (r: Result<
    TranslateResult,
    String,
>)
    ensures
        r matches Ok(res) ==> exists|s: Seq<ChunkView>|
            is_stream_prefix(s) && res@ == #[trigger] merged_result(s),
{
    let mut sink = StreamSink::new();
    let produced = translator.translate_stream(task, &mut sink);
    let chunks = sink.into_chunks();
    let r = finish_stream(produced, &chunks);
    proof {
        if r is Ok {
            assert(is_stream_prefix(chunk_views(chunks@)));
        }
    }
    r
}

/// Sends a one-shot result to a sink that has received `Start`: one
/// `Delta` with the result, then `End`.
pub fn stream_result(result: TranslateResult, sink: &mut StreamSink) -> (r: Result<(), String>)
    ensures
        r is Ok <==> !old(sink).is_closed() && old(sink)@.len() > 0 && !is_finished(old(sink)@),
        r is Ok ==> final(sink)@ == old(sink)@.push(ChunkView::Delta(result@)).push(
            ChunkView::End,
        ),
        r is Err ==> final(sink)@ == old(sink)@,
        final(sink).is_closed() == old(sink).is_closed(),
{
    match sink.send(TranslateStreamChunk::Delta(result)) {
        Ok(()) => {},
        Err(e) => {
            return Err(send_error_message(e));
        },
    }
    match sink.send(TranslateStreamChunk::End) {
        Ok(()) => Ok(()),
        Err(e) => {
            // An open stream that has just taken a delta always takes `End`.
            assert(false);
            Err(send_error_message(e))
        },
    }
}

/// Carries on a stream that has received `Start` with the outcome of a
/// one-shot translation: its error, with nothing more sent, or one `Delta`
/// with its result and then `End`.
pub fn stream_outcome(outcome: Result<TranslateResult, String>, sink: &mut StreamSink) -> (r: Result<
    (),
    String,
>)
    ensures
        final(sink).is_closed() == old(sink).is_closed(),
        outcome matches Err(e) ==> (r matches Err(f) && f@ == e@) && final(sink)@ == old(sink)@,
        outcome matches Ok(res) ==> {
            &&& r is Ok <==> !old(sink).is_closed() && old(sink)@.len() > 0 && !is_finished(
                old(sink)@,
            )
            &&& r is Ok ==> final(sink)@ == old(sink)@.push(ChunkView::Delta(res@)).push(
                ChunkView::End,
            )
            &&& r is Err ==> final(sink)@ == old(sink)@
        },
{
    match outcome {
        Ok(res) => stream_result(res, sink),
        Err(e) => Err(e),
    }
}

/// Turns a one-shot backend into a stream: `Start`, then what
/// [`stream_outcome`] sends for the translation's outcome. Fails, and sends
/// no `End`, when the translation fails.
pub fn normal2stream<T: Translator>(translator: &T, task: TranslateTask, sink: &mut StreamSink) -> (r:
    Result<(), String>)
    ensures
        old(sink).is_closed() || old(sink)@.len() > 0 ==> r is Err && final(sink)@ == old(sink)@,
        r is Ok ==> final(sink)@.len() == 3 && final(sink)@[0] is Start && final(sink)@[1] is Delta
            && final(sink)@[2] is End,
        !old(sink).is_closed() && old(sink)@.len() == 0 ==> final(sink)@.len() > 0
            && final(sink)@[0] is Start,
        !old(sink).is_closed() && old(sink)@.len() == 0 && r is Err ==> final(sink)@ == seq![
            ChunkView::Start,
        ],
{
    match sink.send(TranslateStreamChunk::Start) {
        Ok(()) => {},
        Err(e) => {
            return Err(send_error_message(e));
        },
    }
    let r = stream_outcome(translator.translate(task), sink);
    proof {
        if r is Ok {
            assert(sink@.len() == 3);
        } else {
            assert(sink@ =~= seq![ChunkView::Start]);
        }
    }
    r
}

} // verus!
