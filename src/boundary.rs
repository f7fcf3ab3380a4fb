//! The boundary operations, and the generic adapter that provides all of
//! them for any [`Translator`].
//!
//! The marshaling is written once here, bound to a backend type by a type
//! parameter, so that every backend exposes the same surface.

use vstd::prelude::*;
use crate::ffi::{
    FfiObj, FfiResult, FfiResultExt, Heap, NOT_SUPPORTED, ReleaseError, SUPPORTED, StringArray,
    TranslatorHandle, added, chunk_buffer, convert_string_vec_to_c_array, envelope,
    holds_result, holds_strings, result_at, stream_callback,
};
use crate::handles::{HandleTable, lemma_release_once};
use crate::json::{json_parses, parse_json};
use crate::model::{
    ChunkView, StreamSink, TranslateResult, TranslateStreamChunk, accepts, chunk_views,
    is_stream_prefix,
};
use crate::task::{TranslateTask, TranslateTaskFFI, decode_task};
use crate::translator::Translator;
use crate::text::{prefixed, starts_with};

verus! {

/// The operations that a plugin offers across the boundary. Every operation
/// answers with an envelope; the buffers that it hands over live in the
/// caller's heap and are released by the caller.
pub trait PluginBoundary {
    /// The name under which the plugin reports itself, if it does.
    fn get_plugin_name(&self) -> Option<String>;

    /// Builds a translator from configuration text in the interchange format.
    fn create_translator(&mut self, config: String) -> FfiResult<TranslatorHandle>;

    /// Releases a translator; refused for a handle that is not live.
    fn destroy_translator(&mut self, handle: TranslatorHandle) -> Result<(), ReleaseError>;

    /// The languages accepted as source, as a list of text in `heap`.
    fn get_supported_input_languages(&self, handle: TranslatorHandle, heap: &mut Heap) -> FfiResult<
        StringArray,
    >;

    /// The languages produced as target, as a list of text in `heap`.
    fn get_supported_output_languages(&self, handle: TranslatorHandle, heap: &mut Heap) -> FfiResult<
        StringArray,
    >;

    /// Answers with `SUPPORTED` or `NOT_SUPPORTED`.
    fn is_supported_input_language(&self, handle: TranslatorHandle, lang: String) -> FfiResult<i8>;

    /// Answers with `SUPPORTED` or `NOT_SUPPORTED`.
    fn is_supported_output_language(&self, handle: TranslatorHandle, lang: String) -> FfiResult<i8>;

    /// Translates in one step; the result is a record in `heap`.
    fn call_translate(&self, handle: TranslatorHandle, task: TranslateTaskFFI, heap: &mut Heap) -> FfiResult<
        FfiObj,
    >;

    /// Translates as a stream, handing each chunk to `context` through
    /// [`stream_callback`] before it answers.
    fn call_translate_stream(
        &self,
        handle: TranslatorHandle,
        task: TranslateTaskFFI,
        context: &mut StreamSink,
        heap: &mut Heap,
    ) -> FfiResult<i8>;
}

/// An envelope that holds no payload but an error message.
pub open spec fn is_failure<T>(e: FfiResult<T>) -> bool {
    e.ptr is None && e.err is Some
}

/// The sentinel that answers a language query, or its error.
pub open spec fn answer_of(a: Result<bool, String>) -> Result<i8, String> {
    match a {
        Ok(b) => Ok(if b { SUPPORTED } else { NOT_SUPPORTED }),
        Err(e) => Err(e),
    }
}


/// The envelope that answers a language query.
pub fn answer_envelope(answer: Result<bool, String>) -> (r: FfiResult<i8>)
    ensures
        r == envelope(answer_of(answer)),
{
    match answer {
        Ok(true) => Ok(SUPPORTED).to_ptr(),
        Ok(false) => Ok(NOT_SUPPORTED).to_ptr(),
        Err(e) => Err(e).to_ptr(),
    }
}

/// The envelope that answers a one-shot translation: the result handed over
/// as a record in `heap`, or the error.
pub fn result_envelope(outcome: Result<TranslateResult, String>, heap: &mut Heap) -> (r: FfiResult<
    FfiObj,
>)
    ensures
        match outcome {
            Ok(res) => match r.ptr {
                Some(p) => {
                    &&& r.err is None
                    &&& added(old(heap).live(), final(heap).live(), p.id)
                    &&& holds_result(final(heap).live(), p.id)
                    &&& result_at(final(heap).live(), p.id) == res@
                },
                None => r.err is Some && final(heap).live() == old(heap).live(),
            },
            Err(e) => r == envelope(Err::<FfiObj, String>(e)) && final(heap).live() == old(
                heap,
            ).live(),
        },
        outcome is Ok && old(heap).issued() < u64::MAX ==> r.ptr is Some,
        outcome is Ok ==> (r.err matches Some(m) ==> m@ == "out of buffer handles"@),
{
    match outcome {
        Ok(res) => match res.into_ffi(heap) {
            Ok(p) => Ok(p).to_ptr(),
            Err(e) => Err(e).to_ptr(),
        },
        Err(e) => Err(e).to_ptr(),
    }
}

/// Hands the chunks, in order, to `context` through [`stream_callback`].
/// Every buffer that a chunk takes is released by the callback, so the heap
/// ends as it began. Stops at the first chunk that is refused.
pub fn relay_stream(chunks: Vec<TranslateStreamChunk>, context: &mut StreamSink, heap: &mut Heap) -> (r:
    Result<(), String>)
    ensures
        final(heap).live() == old(heap).live(),
        final(context).is_closed() == old(context).is_closed(),
        r is Ok ==> final(context)@ == old(context)@ + chunk_views(chunks@),
        !old(context).is_closed() && is_stream_prefix(old(context)@ + chunk_views(chunks@))
            && old(heap).issued() + chunks@.len() < u64::MAX ==> r is Ok,
{
    let ghost all = chunk_views(chunks@);
    let ghost start = context@;
    let ghost live = heap.live();
    let ghost issued = heap.issued();
    let ghost owed = !old(context).is_closed() && is_stream_prefix(start + all) && issued + all.len()
        < u64::MAX;
    let n = chunks.len();
    let mut rest = chunks;
    let mut i: usize = 0;
    while i < n
        invariant
            n == all.len(),
            i <= n,
            rest@.len() == n - i,
            chunk_views(rest@) == all.subrange(i as int, n as int),
            context@ == start + all.subrange(0, i as int),
            context.is_closed() == old(context).is_closed(),
            heap.live() == live,
            heap.issued() <= issued + i,
            live == old(heap).live(),
            start == old(context)@,
            issued == old(heap).issued(),
            all == chunk_views(chunks@),
            owed == (!old(context).is_closed() && is_stream_prefix(start + all) && issued + all.len()
                < u64::MAX),
        decreases n - i,
    {
        let ghost old_rest = rest@;
        proof {
            assert(chunk_views(old_rest)[0] == all[i as int]);
        }
        let c = rest.remove(0);
        proof {
            assert(c@ == all[i as int]);
            assert(chunk_views(rest@) =~= all.subrange(i + 1, n as int)) by {
                assert forall|j: int| 0 <= j < rest@.len() implies #[trigger] chunk_views(rest@)[j]
                    == all[i + 1 + j] by {
                    assert(rest@[j] == old_rest[j + 1]);
                    assert(chunk_views(old_rest)[j + 1] == all[i + 1 + j]);
                }
            }
        }
        let ghost before = heap.live();
        let wire = match c.into_ffi(heap) {
            Ok(w) => w,
            Err(e) => {
                return Err(e);
            },
        };
        proof {
            if let Some(id) = chunk_buffer(wire) {
                assert(heap.live().remove(id) == before);
            }
            if owed {
                let s = start + all;
                let k = start.len() + i;
                assert(context@ =~= s.subrange(0, k as int));
                assert(s[k as int] == all[i as int]);
                if k > 0 {
                    assert(!(s[k as int] is Start));
                    if s[k - 1] is End {
                        assert(k - 1 == s.len() - 1);
                    }
                    assert(context@[k - 1] == s[k - 1]);
                }
                assert(accepts(context@, all[i as int]));
            }
        }
        match stream_callback(wire, context, heap) {
            Ok(()) => {},
            Err(e) => {
                return Err(e);
            },
        }
        proof {
            assert(start + all.subrange(0, i + 1) =~= (start + all.subrange(0, i as int)).push(
                all[i as int],
            ));
        }
        i = i + 1;
    }
    proof {
        assert(all.subrange(0, n as int) =~= all);
    }
    Ok(())
}

/// The first character of each message that the boundary operations write
/// themselves, which tells them apart from each other.
pub proof fn lemma_message_heads()
    ensures
        "Null pointer received"@.len() > 0 && "Null pointer received"@[0] == 'N',
        "JSON parse error: "@.len() > 0 && "JSON parse error: "@[0] == 'J',
        "task decode error: "@.len() > 0 && "task decode error: "@[0] == 't',
        "Creation error: "@.len() > 0 && "Creation error: "@[0] == 'C',
        "backend error: "@.len() > 0 && "backend error: "@[0] == 'b',
        "stream relay error: "@.len() > 0 && "stream relay error: "@[0] == 's',
        "out of translator handles"@.len() > 0 && "out of translator handles"@[0] == 'o',
        "out of buffer handles"@.len() > 0 && "out of buffer handles"@[0] == 'o',
        "nul byte found in provided data"@.len() > 0 && "nul byte found in provided data"@[0]
            == 'n',
{
    reveal_strlit("Null pointer received");
    reveal_strlit("JSON parse error: ");
    reveal_strlit("task decode error: ");
    reveal_strlit("Creation error: ");
    reveal_strlit("backend error: ");
    reveal_strlit("stream relay error: ");
    reveal_strlit("out of translator handles");
    reveal_strlit("out of buffer handles");
    reveal_strlit("nul byte found in provided data");
}

/// A backend's failure, marked as the backend's.
pub fn backend_outcome<X>(outcome: Result<X, String>) -> (r: Result<X, String>)
    ensures
        match outcome {
            Ok(x) => r == Ok::<X, String>(x),
            Err(e) => r matches Err(f) && f@ == "backend error: "@ + e@ && f@.len() > 0 && f@[0]
                == 'b' && starts_with(f@, "backend error: "@),
        },
{
    proof {
        lemma_message_heads();
    }
    match outcome {
        Ok(x) => Ok(x),
        Err(e) => Err(prefixed("backend error: ", e)),
    }
}

/// The envelope that answers a streamed translation, from the backend's
/// outcome and the relay's outcome.
pub fn stream_envelope(produced: Result<(), String>, relayed: Result<(), String>) -> (r: FfiResult<
    i8,
>)
    ensures
        produced matches Err(e) ==> r == envelope(Err::<i8, String>(e)),
        produced is Ok ==> (relayed matches Err(e) ==> r == envelope(Err::<i8, String>(e))),
        produced is Ok && relayed is Ok ==> r == envelope(Ok::<i8, String>(0i8)),
{
    if let Err(e) = produced {
        return Err(e).to_ptr();
    }
    if let Err(e) = relayed {
        return Err(e).to_ptr();
    }
    Ok(0i8).to_ptr()
}

/// Delivers the chunks that a backend produced, in order, to `context`,
/// whether or not the backend then succeeded, and answers the call. The
/// answer is success when the backend succeeded and every chunk was
/// delivered; a stream that stopped without `End` still counts.
pub fn deliver_stream(
    produced: Result<(), String>,
    chunks: Vec<TranslateStreamChunk>,
    context: &mut StreamSink,
    heap: &mut Heap,
) -> (r: FfiResult<i8>)
    ensures
        final(heap).live() == old(heap).live(),
        final(context).is_closed() == old(context).is_closed(),
        !old(context).is_closed() && is_stream_prefix(old(context)@ + chunk_views(chunks@))
            && old(heap).issued() + chunks@.len() < u64::MAX ==> final(context)@ == old(context)@
            + chunk_views(chunks@),
        produced matches Err(e) ==> r == envelope(Err::<i8, String>(e)),
        produced is Ok && !old(context).is_closed() && is_stream_prefix(
            old(context)@ + chunk_views(chunks@),
        ) && old(heap).issued() + chunks@.len() < u64::MAX ==> r == envelope(Ok::<i8, String>(0i8)),
        match r.ptr {
            Some(v) => {
                &&& v == 0
                &&& r.err is None
                &&& final(context)@ == old(context)@ + chunk_views(chunks@)
            },
            None => r.err is Some,
        },
        r.err matches Some(m) ==> (produced matches Err(e) && m == e) || (m@.len() > 0 && m@[0]
            == 's' && starts_with(m@, "stream relay error: "@)),
{
    proof {
        lemma_message_heads();
    }
    let relayed = match relay_stream(chunks, context, heap) {
        Ok(()) => Ok(()),
        Err(e) => Err(prefixed("stream relay error: ", e)),
    };
    stream_envelope(produced, relayed)
}

/// The generic adapter: the full set of boundary operations for the
/// backend type `T`, under the plugin name it was given.
pub struct ExportedPlugin<T> {
    name: String,
    instances: HandleTable<T>,
}

impl<T: Translator> ExportedPlugin<T> {
    /// The live translator instances, by handle.
    pub closed spec fn instances(&self) -> Map<u64, T> {
        self.instances.live()
    }

    /// The name that the plugin reports.
    pub closed spec fn name(&self) -> Seq<char> {
        self.name@
    }

    /// The number of handles handed out so far.
    pub closed spec fn issued(&self) -> nat {
        self.instances.issued()
    }

    /// A plugin with no translator instances yet.
    pub fn new(name: String) -> (r: ExportedPlugin<T>)
        ensures
            r.name() == name@,
            r.instances() == Map::<u64, T>::empty(),
    {
        ExportedPlugin { name, instances: HandleTable::new() }
    }

    /// The name that the plugin reports.
    pub fn get_plugin_name(&self) -> (r: Option<String>)
        ensures
            r matches Some(n) && n@ == self.name(),
    {
        Some(self.name.clone())
    }

    /// Reads the configuration text and builds a translator from it. Fails
    /// when the text is not a JSON document, when the backend refuses it, or
    /// when every handle has been used.
    pub fn create_translator(&mut self, config: String) -> (r: FfiResult<TranslatorHandle>)
        ensures
            final(self).name() == old(self).name(),
            !json_parses(config@) ==> is_failure(r) && final(self).instances() == old(
                self,
            ).instances(),
            r.err matches Some(m) && starts_with(m@, "JSON parse error: "@) ==> !json_parses(config@),
            r.err matches Some(m) ==> starts_with(m@, "JSON parse error: "@) || starts_with(
                m@,
                "Creation error: "@,
            ) || m@ == "out of translator handles"@,
            match r.ptr {
                Some(h) => {
                    &&& r.err is None
                    &&& !old(self).instances().contains_key(h.id)
                    &&& final(self).instances().contains_key(h.id)
                    &&& final(self).instances().remove(h.id) == old(self).instances()
                },
                None => r.err is Some && final(self).instances() == old(self).instances(),
            },
    {
        proof {
            lemma_message_heads();
        }
        let value = match parse_json(config.as_str()) {
            Ok(v) => v,
            Err(e) => {
                return Err(prefixed("JSON parse error: ", e)).to_ptr();
            },
        };
        self.adopt_built(T::new(value))
    }

    /// Answers a construction with the backend's outcome: an error that
    /// carries the backend's message, or the handle of the new instance.
    pub fn adopt_built(&mut self, built: Result<T, String>) -> (r: FfiResult<TranslatorHandle>)
        ensures
            final(self).name() == old(self).name(),
            built matches Err(e) ==> {
                &&& r.ptr is None
                &&& r.err matches Some(m) && m@ == "Creation error: "@ + e@
                &&& final(self).instances() == old(self).instances()
            },
            built matches Ok(t) ==> {
                &&& r.ptr is Some <==> old(self).issued() < u64::MAX
                &&& match r.ptr {
                    Some(h) => {
                        &&& r.err is None
                        &&& !old(self).instances().contains_key(h.id)
                        &&& final(self).instances() == old(self).instances().insert(h.id, t)
                    },
                    None => (r.err matches Some(m) && m@ == "out of translator handles"@)
                        && final(self).instances() == old(self).instances(),
                }
            },
            r.err matches Some(m) ==> starts_with(m@, "Creation error: "@) || m@
                == "out of translator handles"@,
            r.err matches Some(m) ==> m@.len() > 0 && (m@[0] == 'C' || m@[0] == 'o'),
            match r.ptr {
                Some(h) => {
                    &&& r.err is None
                    &&& !old(self).instances().contains_key(h.id)
                    &&& final(self).instances().contains_key(h.id)
                    &&& final(self).instances().remove(h.id) == old(self).instances()
                },
                None => r.err is Some && final(self).instances() == old(self).instances(),
            },
    {
        proof {
            lemma_message_heads();
        }
        let translator = match built {
            Ok(t) => t,
            Err(e) => {
                return Err(prefixed("Creation error: ", e)).to_ptr();
            },
        };
        let ghost before = self.instances();
        let ghost made = translator;
        let r = self.adopt_translator(translator);
        proof {
            if let Some(h) = r.ptr {
                lemma_release_once(before, h.id, made);
            }
        }
        r
    }

    /// Takes a built translator into the table and hands out its handle;
    /// fails only when every handle has been used.
    pub fn adopt_translator(&mut self, translator: T) -> (r: FfiResult<TranslatorHandle>)
        ensures
            final(self).name() == old(self).name(),
            r.ptr is Some <==> old(self).issued() < u64::MAX,
            match r.ptr {
                Some(h) => {
                    &&& r.err is None
                    &&& !old(self).instances().contains_key(h.id)
                    &&& final(self).instances() == old(self).instances().insert(h.id, translator)
                },
                None => r.err is Some && final(self).instances() == old(self).instances(),
            },
            r.err matches Some(m) ==> m@ == "out of translator handles"@,
    {
        match self.instances.insert(translator) {
            Ok(id) => Ok(TranslatorHandle { id }).to_ptr(),
            Err(_) => Err(String::from_str("out of translator handles")).to_ptr(),
        }
    }

    /// Releases a translator instance.
    pub fn destroy_translator(&mut self, handle: TranslatorHandle) -> (r: Result<(), ReleaseError>)
        ensures
            final(self).name() == old(self).name(),
            r is Ok <==> old(self).instances().contains_key(handle.id),
            r matches Err(e) ==> e is NotLive,
            final(self).instances() == old(self).instances().remove(handle.id),
    {
        match self.instances.remove(handle.id) {
            Some(_) => Ok(()),
            None => Err(ReleaseError::NotLive),
        }
    }

    /// The source languages of a translator, handed over as a list in `heap`.
    pub fn get_supported_input_languages(&self, handle: TranslatorHandle, heap: &mut Heap) -> (r:
        FfiResult<StringArray>)
        ensures
            !self.instances().contains_key(handle.id) ==> is_failure(r),
            r.err matches Some(m) && m@ == "Null pointer received"@ ==> !self.instances().contains_key(
                handle.id,
            ),
            r.err matches Some(m) ==> m@ == "Null pointer received"@ || starts_with(
                m@,
                "backend error: "@,
            ) || m@ == "nul byte found in provided data"@ || m@ == "out of buffer handles"@,
            match r.ptr {
                Some(a) => {
                    &&& r.err is None
                    &&& added(old(heap).live(), final(heap).live(), a.ptr.id)
                    &&& holds_strings(final(heap).live(), a.ptr.id, a.len as int)
                },
                None => r.err is Some && final(heap).live() == old(heap).live(),
            },
    {
        proof {
            lemma_message_heads();
        }
        match self.instances.get(handle.id) {
            Some(t) => match backend_outcome(t.get_supported_input_languages()) {
                Ok(list) => convert_string_vec_to_c_array(list, heap),
                Err(e) => Err(e).to_ptr(),
            },
            None => Err(String::from_str("Null pointer received")).to_ptr(),
        }
    }

    /// The target languages of a translator, handed over as a list in `heap`.
    pub fn get_supported_output_languages(&self, handle: TranslatorHandle, heap: &mut Heap) -> (r:
        FfiResult<StringArray>)
        ensures
            !self.instances().contains_key(handle.id) ==> is_failure(r),
            r.err matches Some(m) && m@ == "Null pointer received"@ ==> !self.instances().contains_key(
                handle.id,
            ),
            r.err matches Some(m) ==> m@ == "Null pointer received"@ || starts_with(
                m@,
                "backend error: "@,
            ) || m@ == "nul byte found in provided data"@ || m@ == "out of buffer handles"@,
            match r.ptr {
                Some(a) => {
                    &&& r.err is None
                    &&& added(old(heap).live(), final(heap).live(), a.ptr.id)
                    &&& holds_strings(final(heap).live(), a.ptr.id, a.len as int)
                },
                None => r.err is Some && final(heap).live() == old(heap).live(),
            },
    {
        proof {
            lemma_message_heads();
        }
        match self.instances.get(handle.id) {
            Some(t) => match backend_outcome(t.get_supported_output_languages()) {
                Ok(list) => convert_string_vec_to_c_array(list, heap),
                Err(e) => Err(e).to_ptr(),
            },
            None => Err(String::from_str("Null pointer received")).to_ptr(),
        }
    }

    /// Whether a translator accepts the language as source, as a sentinel.
    pub fn is_supported_input_language(&self, handle: TranslatorHandle, lang: String) -> (r:
        FfiResult<i8>)
        ensures
            !self.instances().contains_key(handle.id) ==> is_failure(r),
            r.err matches Some(m) && m@ == "Null pointer received"@ ==> !self.instances().contains_key(
                handle.id,
            ),
            r.err matches Some(m) ==> m@ == "Null pointer received"@ || starts_with(
                m@,
                "backend error: "@,
            ),
            match r.ptr {
                Some(v) => r.err is None && (v == SUPPORTED || v == NOT_SUPPORTED),
                None => r.err is Some,
            },
    {
        proof {
            lemma_message_heads();
        }
        match self.instances.get(handle.id) {
            Some(t) => answer_envelope(backend_outcome(t.is_supported_input_language(lang))),
            None => Err(String::from_str("Null pointer received")).to_ptr(),
        }
    }

    /// Whether a translator produces the language as target, as a sentinel.
    pub fn is_supported_output_language(&self, handle: TranslatorHandle, lang: String) -> (r:
        FfiResult<i8>)
        ensures
            !self.instances().contains_key(handle.id) ==> is_failure(r),
            r.err matches Some(m) && m@ == "Null pointer received"@ ==> !self.instances().contains_key(
                handle.id,
            ),
            r.err matches Some(m) ==> m@ == "Null pointer received"@ || starts_with(
                m@,
                "backend error: "@,
            ),
            match r.ptr {
                Some(v) => r.err is None && (v == SUPPORTED || v == NOT_SUPPORTED),
                None => r.err is Some,
            },
    {
        proof {
            lemma_message_heads();
        }
        match self.instances.get(handle.id) {
            Some(t) => answer_envelope(backend_outcome(t.is_supported_output_language(lang))),
            None => Err(String::from_str("Null pointer received")).to_ptr(),
        }
    }

    /// Reads the task and translates it in one step; the result is handed
    /// over as a record in `heap`.
    pub fn call_translate(&self, handle: TranslatorHandle, task: TranslateTaskFFI, heap: &mut Heap) -> (r:
        FfiResult<FfiObj>)
        ensures
            decode_task(task@) is None ==> is_failure(r) && final(heap).live() == old(heap).live(),
            !self.instances().contains_key(handle.id) ==> is_failure(r) && final(heap).live() == old(
                heap,
            ).live(),
            r.err matches Some(m) && starts_with(m@, "task decode error: "@) ==> decode_task(task@) is None,
            r.err matches Some(m) && m@ == "Null pointer received"@ ==> !self.instances().contains_key(
                handle.id,
            ),
            r.err matches Some(m) ==> starts_with(m@, "task decode error: "@) || m@
                == "Null pointer received"@ || starts_with(m@, "backend error: "@) || m@
                == "out of buffer handles"@,
            match r.ptr {
                Some(p) => {
                    &&& r.err is None
                    &&& added(old(heap).live(), final(heap).live(), p.id)
                    &&& holds_result(final(heap).live(), p.id)
                },
                None => r.err is Some && final(heap).live() == old(heap).live(),
            },
    {
        proof {
            lemma_message_heads();
        }
        let task = match TranslateTask::from_ffi(task) {
            Ok(t) => t,
            Err(e) => {
                return Err(prefixed("task decode error: ", e)).to_ptr();
            },
        };
        match self.instances.get(handle.id) {
            Some(t) => result_envelope(backend_outcome(t.translate(task)), heap),
            None => Err(String::from_str("Null pointer received")).to_ptr(),
        }
    }

    /// Reads the task and runs the backend's stream to its end, then hands
    /// the chunks it produced, in order, to `context` through
    /// [`deliver_stream`]. Answers success when the backend succeeded and
    /// every chunk was delivered; a stream that stopped without `End` still
    /// counts. When the backend fails, the chunks it produced before failing
    /// are still delivered. The backend's stream is held in full before the
    /// relay starts; a receiver that is already closed closes the backend's
    /// stream too, so its first chunk fails.
    pub fn call_translate_stream(
        &self,
        handle: TranslatorHandle,
        task: TranslateTaskFFI,
        context: &mut StreamSink,
        heap: &mut Heap,
    ) -> (r: FfiResult<i8>)
        ensures
            final(heap).live() == old(heap).live(),
            final(context).is_closed() == old(context).is_closed(),
            decode_task(task@) is None ==> is_failure(r) && final(context)@ == old(context)@,
            !self.instances().contains_key(handle.id) ==> is_failure(r) && final(context)@ == old(
                context,
            )@,
            r.err matches Some(m) && starts_with(m@, "task decode error: "@) ==> decode_task(task@) is None,
            r.err matches Some(m) && m@ == "Null pointer received"@ ==> !self.instances().contains_key(
                handle.id,
            ),
            r.err matches Some(m) ==> starts_with(m@, "task decode error: "@) || m@
                == "Null pointer received"@ || starts_with(m@, "backend error: "@) || starts_with(
                m@,
                "stream relay error: "@,
            ),
            match r.ptr {
                Some(v) => {
                    &&& v == 0
                    &&& r.err is None
                    &&& exists|s: Seq<ChunkView>|
                        #[trigger] is_stream_prefix(s) && final(context)@ == old(context)@ + s
                },
                None => r.err is Some,
            },
    {
        proof {
            lemma_message_heads();
        }
        let task = match TranslateTask::from_ffi(task) {
            Ok(t) => t,
            Err(e) => {
                return Err(prefixed("task decode error: ", e)).to_ptr();
            },
        };
        let t = match self.instances.get(handle.id) {
            Some(t) => t,
            None => {
                return Err(String::from_str("Null pointer received")).to_ptr();
            },
        };
        let mut produced_into = StreamSink::new();
        if context.receiver_closed() {
            produced_into.close();
        }
        let produced = backend_outcome(t.translate_stream(task, &mut produced_into));
        let chunks = produced_into.into_chunks();
        let ghost views = chunk_views(chunks@);
        let r = deliver_stream(produced, chunks, context, heap);
        proof {
            if r.ptr is Some {
                assert(is_stream_prefix(views));
            }
        }
        r
    }
}

impl<T: Translator> PluginBoundary for ExportedPlugin<T> {
    fn get_plugin_name(&self) -> Option<String> {
        ExportedPlugin::get_plugin_name(self)
    }

    fn create_translator(&mut self, config: String) -> FfiResult<TranslatorHandle> {
        ExportedPlugin::create_translator(self, config)
    }

    fn destroy_translator(&mut self, handle: TranslatorHandle) -> Result<(), ReleaseError> {
        ExportedPlugin::destroy_translator(self, handle)
    }

    fn get_supported_input_languages(&self, handle: TranslatorHandle, heap: &mut Heap) -> FfiResult<
        StringArray,
    > {
        ExportedPlugin::get_supported_input_languages(self, handle, heap)
    }

    fn get_supported_output_languages(&self, handle: TranslatorHandle, heap: &mut Heap) -> FfiResult<
        StringArray,
    > {
        ExportedPlugin::get_supported_output_languages(self, handle, heap)
    }

    fn is_supported_input_language(&self, handle: TranslatorHandle, lang: String) -> FfiResult<i8> {
        ExportedPlugin::is_supported_input_language(self, handle, lang)
    }

    fn is_supported_output_language(&self, handle: TranslatorHandle, lang: String) -> FfiResult<i8> {
        ExportedPlugin::is_supported_output_language(self, handle, lang)
    }

    fn call_translate(&self, handle: TranslatorHandle, task: TranslateTaskFFI, heap: &mut Heap) -> FfiResult<
        FfiObj,
    > {
        ExportedPlugin::call_translate(self, handle, task, heap)
    }

    fn call_translate_stream(
        &self,
        handle: TranslatorHandle,
        task: TranslateTaskFFI,
        context: &mut StreamSink,
        heap: &mut Heap,
    ) -> FfiResult<i8> {
        ExportedPlugin::call_translate_stream(self, handle, task, context, heap)
    }
}

} // verus!
