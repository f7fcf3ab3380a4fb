//! The boundary's data shapes: the result envelope, the records in which
//! results, stream chunks and lists of text cross, and the rules by which
//! each owned buffer is released exactly once.

use vstd::prelude::*;
use crate::handles::{HandleTable, lemma_release_once};
use crate::translator::send_error_message;
use crate::model::{
    ChunkView, ResultView, StreamSink, TranslateResult, TranslateStreamChunk, accepts,
    opt_text,
};

verus! {

/// An opaque reference to a translator instance: a token in the table of
/// the side that created it.
#[derive(Debug, Clone, Copy)]
pub struct TranslatorHandle {
    pub id: u64,
}

/// An opaque reference to an owned buffer in a [`Heap`].
#[derive(Debug, Clone, Copy)]
pub struct FfiObj {
    pub id: u64,
}

/// A list of text handed across the boundary: its buffer and its length.
#[derive(Debug)]
pub struct StringArray {
    pub ptr: FfiObj,
    pub len: usize,
}

/// A buffer owned by whoever holds its [`FfiObj`].
pub enum Allocation {
    Strings(Vec<String>),
    Result(TranslateResultFFI),
}

/// The buffers that are held across the boundary. Each is released by the
/// operation that belongs to its kind, once.
pub type Heap = HandleTable<Allocation>;

/// Why a release was refused.
#[derive(Debug)]
pub enum ReleaseError {
    /// Nothing is held under the pointer: it was never handed out, or it was
    /// released before.
    NotLive,
    /// The pointer belongs to another kind of buffer, or the length given
    /// is not the buffer's.
    Mismatch,
}

/// The values of a list of strings, as text.
pub open spec fn texts(s: Seq<String>) -> Seq<Seq<char>> {
    s.map_values(|x: String| x@)
}

/// The heap gained exactly one buffer, under `id`.
pub open spec fn added(before: Map<u64, Allocation>, after: Map<u64, Allocation>, id: u64) -> bool {
    &&& !before.contains_key(id)
    &&& after.contains_key(id)
    &&& after.remove(id) == before
}

/// A buffer handed over by a boundary call and then released once by the
/// operation of its kind leaves the heap holding exactly what it held before
/// the call; releasing the same pointer again finds nothing.
pub proof fn lemma_release_restores(before: Map<u64, Allocation>, after: Map<u64, Allocation>, id: u64)
    requires
        added(before, after, id),
    ensures
        after.remove(id) == before,
        !after.remove(id).contains_key(id),
{
}

/// The return value of every boundary operation: a payload or an error
/// message.
pub struct FfiResult<T> {
    pub ptr: Option<T>,
    pub err: Option<String>,
}

/// The envelope that wraps an outcome: exactly one side is present.
pub open spec fn envelope<T>(r: Result<T, String>) -> FfiResult<T> {
    match r {
        Ok(v) => FfiResult { ptr: Some(v), err: None },
        Err(m) => FfiResult { ptr: None, err: Some(m) },
    }
}

/// What the consumer of an envelope gets out of it.
pub open spec fn unwrap_outcome<T>(e: FfiResult<T>) -> Result<T, Seq<char>> {
    match e.err {
        Some(m) => Err("result's error: "@ + m@),
        None => match e.ptr {
            Some(v) => Ok(v),
            None => Err("result obj is null"@),
        },
    }
}

/// `m` occurs in `s`.
pub open spec fn contains_text(s: Seq<char>, m: Seq<char>) -> bool {
    exists|i: int| 0 <= i <= s.len() - m.len() && #[trigger] s.subrange(i, i + m.len()) == m
}

/// Wrapping a success value in an envelope and unwrapping it gives the
/// value back; wrapping an error message and unwrapping it gives a failure
/// whose message contains that message.
pub proof fn lemma_envelope_round_trip<T>(r: Result<T, String>)
    ensures
        r matches Ok(x) ==> unwrap_outcome(envelope(r)) == Ok::<T, Seq<char>>(x),
        r matches Err(m) ==> (unwrap_outcome(envelope(r)) matches Err(s) && contains_text(s, m@)),
{
    if let Err(m) = r {
        let p = "result's error: "@;
        let s = p + m@;
        assert(s.subrange(p.len() as int, p.len() + m@.len() as int) =~= m@);
    }
}

impl<T> FfiResult<T> {
    /// Wraps an outcome in an envelope.
    pub fn from_result(r: Result<T, String>) -> (e: FfiResult<T>)
        ensures
            e == envelope(r),
    {
        match r {
            Ok(v) => FfiResult { ptr: Some(v), err: None },
            Err(m) => FfiResult { ptr: None, err: Some(m) },
        }
    }
}

/// Turns an outcome into the value that a boundary operation returns.
pub trait FfiResultExt<T>: Sized {
    /// The value that `to_ptr` returns.
    spec fn spec_to_ptr(self) -> T;

    fn to_ptr(self) -> (r: T)
        ensures
            r == self.spec_to_ptr(),
    ;
}

impl<T> FfiResultExt<FfiResult<T>> for Result<T, String> {
    open spec fn spec_to_ptr(self) -> FfiResult<T> {
        envelope(self)
    }

    fn to_ptr(self) -> (r: FfiResult<T>) {
        FfiResult::from_result(self)
    }
}

/// Consumes an envelope: its payload, or the reason there is none.
pub fn unwrap_handle_result<T>(result: FfiResult<T>) -> (r: Result<T, String>)
    ensures
        match r {
            Ok(v) => unwrap_outcome(result) == Ok::<T, Seq<char>>(v),
            Err(s) => unwrap_outcome(result) == Err::<T, Seq<char>>(s@),
        },
{
    let FfiResult { ptr, err } = result;
    match err {
        Some(m) => {
            let mut msg = String::from_str("result's error: ");
            msg.append(m.as_str());
            Err(msg)
        },
        None => match ptr {
            Some(v) => Ok(v),
            None => Err(String::from_str("result obj is null")),
        },
    }
}

/// Turns an error text received across the boundary into a failure.
pub fn wrap_err(error: Option<String>) -> (r: Result<(), String>)
    ensures
        match error {
            Some(m) => (r matches Err(s) && s@ == m@),
            None => r is Ok,
        },
{
    match error {
        Some(m) => Err(m),
        None => Ok(()),
    }
}

/// The answer "supported" of a language query.
pub const SUPPORTED: i8 = 0;

/// The answer "not supported" of a language query.
pub const NOT_SUPPORTED: i8 = 1;

/// The sentinel that answers a language query.
pub fn support_sentinel(supported: bool) -> (r: i8)
    ensures
        r == (if supported { SUPPORTED } else { NOT_SUPPORTED }),
{
    if supported {
        SUPPORTED
    } else {
        NOT_SUPPORTED
    }
}

/// What a language query's envelope answers: supported for the sentinel
/// `SUPPORTED`, not supported for `NOT_SUPPORTED`, and a query failure for
/// any other sentinel or for an error.
pub open spec fn support_outcome(e: FfiResult<i8>) -> Result<bool, Seq<char>> {
    match unwrap_outcome(e) {
        Ok(v) => if v == SUPPORTED {
            Ok(true)
        } else if v == NOT_SUPPORTED {
            Ok(false)
        } else {
            Err("unexpected language support sentinel"@)
        },
        Err(m) => Err(m),
    }
}

/// Reads the answer of a language query from its envelope.
pub fn support_from_sentinel(result: FfiResult<i8>) -> (r: Result<bool, String>)
    ensures
        match r {
            Ok(b) => support_outcome(result) == Ok::<bool, Seq<char>>(b),
            Err(s) => support_outcome(result) == Err::<bool, Seq<char>>(s@),
        },
        r == Ok::<bool, String>(true) <==> unwrap_outcome(result) == Ok::<i8, Seq<char>>(SUPPORTED),
        r == Ok::<bool, String>(false) <==> unwrap_outcome(result) == Ok::<i8, Seq<char>>(
            NOT_SUPPORTED,
        ),
{
    let v = unwrap_handle_result(result)?;
    if v == SUPPORTED {
        Ok(true)
    } else if v == NOT_SUPPORTED {
        Ok(false)
    } else {
        Err(String::from_str("unexpected language support sentinel"))
    }
}

/// A translation result as it crosses the boundary.
#[derive(Debug)]
pub struct TranslateResultFFI {
    pub reasoning: Option<String>,
    pub content: Option<String>,
}

impl View for TranslateResultFFI {
    type V = ResultView;

    open spec fn view(&self) -> ResultView {
        ResultView { reasoning: opt_text(self.reasoning), content: opt_text(self.content) }
    }
}

/// The heap holds a result record under `id`.
pub open spec fn holds_result(live: Map<u64, Allocation>, id: u64) -> bool {
    live.contains_key(id) && live[id] is Result
}

/// The result record that the heap holds under `id`.
pub open spec fn result_at(live: Map<u64, Allocation>, id: u64) -> ResultView {
    match live[id] {
        Allocation::Result(r) => r@,
        Allocation::Strings(_) => ResultView { reasoning: None, content: None },
    }
}

impl TranslateResult {
    /// The boundary record of this result, held by value.
    pub fn into_ffi_unbox(self) -> (r: TranslateResultFFI)
        ensures
            r@ == self@,
    {
        TranslateResultFFI { reasoning: self.reasoning, content: self.content }
    }

    /// Hands this result over as a record in `heap`; the receiver releases
    /// it with `from_ffi` or `free_translate_result`.
    pub fn into_ffi(self, heap: &mut Heap) -> (r: Result<FfiObj, String>)
        ensures
            match r {
                Ok(p) => {
                    &&& added(old(heap).live(), final(heap).live(), p.id)
                    &&& holds_result(final(heap).live(), p.id)
                    &&& result_at(final(heap).live(), p.id) == self@
                },
                Err(m) => {
                    &&& final(heap).live() == old(heap).live()
                    &&& old(heap).issued() >= u64::MAX
                    &&& m@ == "out of buffer handles"@
                },
            },
            final(heap).issued() <= old(heap).issued() + 1,
    {
        let rec = self.into_ffi_unbox();
        let ghost before = heap.live();
        let ghost entry = Allocation::Result(rec);
        match heap.insert(Allocation::Result(rec)) {
            Ok(id) => {
                proof {
                    lemma_release_once(before, id, entry);
                }
                Ok(FfiObj { id })
            },
            Err(_) => Err(String::from_str("out of buffer handles")),
        }
    }

    /// Takes the result record held under `ptr` and releases it.
    pub fn from_ffi(ptr: FfiObj, heap: &mut Heap) -> (r: Result<TranslateResult, String>)
        ensures
            r is Ok <==> holds_result(old(heap).live(), ptr.id),
            match r {
                Ok(t) => {
                    &&& t@ == result_at(old(heap).live(), ptr.id)
                    &&& final(heap).live() == old(heap).live().remove(ptr.id)
                },
                Err(m) => final(heap).live() == old(heap).live() && m@
                    == "null pointer received from ffi"@,
            },
            final(heap).issued() == old(heap).issued(),
    {
        match heap.get(ptr.id) {
            Some(Allocation::Result(_)) => {},
            _ => {
                return Err(String::from_str("null pointer received from ffi"));
            },
        }
        match heap.remove(ptr.id) {
            Some(Allocation::Result(rec)) => Ok(
                TranslateResult { reasoning: rec.reasoning, content: rec.content },
            ),
            _ => Err(String::from_str("null pointer received from ffi")),
        }
    }
}

/// Releases the result record held under `ptr`.
pub fn free_translate_result(ptr: FfiObj, heap: &mut Heap) -> (r: Result<(), ReleaseError>)
    ensures
        r is Ok <==> holds_result(old(heap).live(), ptr.id),
        r is Ok ==> final(heap).live() == old(heap).live().remove(ptr.id),
        r matches Err(e) ==> final(heap).live() == old(heap).live() && (e is NotLive
            <==> !old(heap).live().contains_key(ptr.id)),
{
    match heap.get(ptr.id) {
        Some(Allocation::Result(_)) => {},
        Some(Allocation::Strings(_)) => {
            return Err(ReleaseError::Mismatch);
        },
        None => {
            return Err(ReleaseError::NotLive);
        },
    }
    let _ = heap.remove(ptr.id);
    Ok(())
}

/// The kind of a stream chunk on the boundary.
#[derive(Debug)]
pub enum TranslateStreamChunkTag {
    Start,
    Delta,
    End,
}

/// A stream chunk as it crosses the boundary: only a `Delta` carries a
/// result record.
#[derive(Debug)]
pub struct TranslateStreamChunkFFI {
    pub tag: TranslateStreamChunkTag,
    pub delta: Option<FfiObj>,
}

/// The chunk that a boundary chunk stands for, given the heap it refers to.
pub open spec fn chunk_of(c: TranslateStreamChunkFFI, live: Map<u64, Allocation>) -> Option<
    ChunkView,
> {
    match c.tag {
        TranslateStreamChunkTag::Start => Some(ChunkView::Start),
        TranslateStreamChunkTag::End => Some(ChunkView::End),
        TranslateStreamChunkTag::Delta => match c.delta {
            Some(p) => if holds_result(live, p.id) {
                Some(ChunkView::Delta(result_at(live, p.id)))
            } else {
                None
            },
            None => None,
        },
    }
}

/// The buffer that a boundary chunk owns, if any.
pub open spec fn chunk_buffer(c: TranslateStreamChunkFFI) -> Option<u64> {
    match c.tag {
        TranslateStreamChunkTag::Delta => match c.delta {
            Some(p) => Some(p.id),
            None => None,
        },
        _ => None,
    }
}

/// The heap after a chunk was read and its buffer released.
pub open spec fn after_read(c: TranslateStreamChunkFFI, live: Map<u64, Allocation>) -> Map<
    u64,
    Allocation,
> {
    match chunk_buffer(c) {
        Some(id) => live.remove(id),
        None => live,
    }
}

impl TranslateStreamChunk {
    /// Hands this chunk over; a `Delta` places its result in `heap`.
    pub fn into_ffi(self, heap: &mut Heap) -> (r: Result<TranslateStreamChunkFFI, String>)
        ensures
            match r {
                Ok(c) => {
                    &&& chunk_of(c, final(heap).live()) == Some(self@)
                    &&& match chunk_buffer(c) {
                        Some(id) => added(old(heap).live(), final(heap).live(), id),
                        None => final(heap).live() == old(heap).live(),
                    }
                },
                Err(_) => final(heap).live() == old(heap).live() && old(heap).issued() >= u64::MAX,
            },
            final(heap).issued() <= old(heap).issued() + 1,
    {
        match self {
            TranslateStreamChunk::Start => Ok(
                TranslateStreamChunkFFI { tag: TranslateStreamChunkTag::Start, delta: None },
            ),
            TranslateStreamChunk::Delta(result) => {
                let p = result.into_ffi(heap)?;
                Ok(TranslateStreamChunkFFI { tag: TranslateStreamChunkTag::Delta, delta: Some(p) })
            },
            TranslateStreamChunk::End => Ok(
                TranslateStreamChunkFFI { tag: TranslateStreamChunkTag::End, delta: None },
            ),
        }
    }

    /// Reads a boundary chunk and releases the buffer it owns.
    pub fn from_ffi(chunk: TranslateStreamChunkFFI, heap: &mut Heap) -> (r: Result<
        TranslateStreamChunk,
        String,
    >)
        ensures
            match r {
                Ok(c) => {
                    &&& chunk_of(chunk, old(heap).live()) == Some(c@)
                    &&& final(heap).live() == after_read(chunk, old(heap).live())
                },
                Err(_) => {
                    &&& chunk_of(chunk, old(heap).live()) is None
                    &&& final(heap).live() == old(heap).live()
                },
            },
            final(heap).issued() == old(heap).issued(),
    {
        match chunk.tag {
            TranslateStreamChunkTag::Start => Ok(TranslateStreamChunk::Start),
            TranslateStreamChunkTag::End => Ok(TranslateStreamChunk::End),
            TranslateStreamChunkTag::Delta => match chunk.delta {
                Some(p) => {
                    let r = TranslateResult::from_ffi(p, heap)?;
                    Ok(TranslateStreamChunk::Delta(r))
                },
                None => Err(String::from_str("null pointer received from ffi")),
            },
        }
    }
}

/// The callback through which a stream's chunks reach the caller: it reads
/// each chunk, releasing its buffer, and delivers it to the caller's sink.
pub fn stream_callback(chunk: TranslateStreamChunkFFI, sink: &mut StreamSink, heap: &mut Heap) -> (r:
    Result<(), String>)
    ensures
        match chunk_of(chunk, old(heap).live()) {
            Some(c) => {
                &&& final(heap).live() == after_read(chunk, old(heap).live())
                &&& r is Ok <==> !old(sink).is_closed() && accepts(old(sink)@, c)
                &&& r is Ok ==> final(sink)@ == old(sink)@.push(c)
                &&& r is Err ==> final(sink)@ == old(sink)@
            },
            None => {
                &&& r is Err
                &&& final(heap).live() == old(heap).live()
                &&& final(sink)@ == old(sink)@
            },
        },
        final(sink).is_closed() == old(sink).is_closed(),
        final(heap).issued() == old(heap).issued(),
{
    let c = TranslateStreamChunk::from_ffi(chunk, heap)?;
    match sink.send(c) {
        Ok(()) => Ok(()),
        Err(e) => Err(send_error_message(e)),
    }
}

/// Whether the text holds a NUL character, which owned text on the
/// boundary cannot carry.
pub fn has_nul(s: &str) -> (r: bool)
    ensures
        r == s@.contains('\0'),
{
    let n = s.unicode_len();
    let mut i: usize = 0;
    while i < n
        invariant
            n == s@.len(),
            i <= n,
            forall|j: int| 0 <= j < i ==> s@[j] != '\0',
        decreases n - i,
    {
        if s.get_char(i) == '\0' {
            return true;
        }
        i = i + 1;
    }
    false
}

/// Some string of the list holds a NUL character.
pub open spec fn any_nul(s: Seq<String>) -> bool {
    exists|i: int| 0 <= i < s.len() && #[trigger] s[i]@.contains('\0')
}

/// The heap holds a list of `len` strings under `id`.
pub open spec fn holds_strings(live: Map<u64, Allocation>, id: u64, len: int) -> bool {
    live.contains_key(id) && (live[id] matches Allocation::Strings(v) && v@.len() == len)
}

/// The strings that the heap holds under `id`.
pub open spec fn strings_at(live: Map<u64, Allocation>, id: u64) -> Seq<Seq<char>> {
    match live[id] {
        Allocation::Strings(v) => texts(v@),
        Allocation::Result(_) => Seq::empty(),
    }
}

/// Hands a list of strings over as one buffer in `heap`; fails, holding
/// nothing, when a string holds a NUL character.
pub fn convert_string_vec_to_c_array(strings: Vec<String>, heap: &mut Heap) -> (r: FfiResult<
    StringArray,
>)
    ensures
        any_nul(strings@) ==> r.err is Some && r.ptr is None,
        !any_nul(strings@) && old(heap).issued() < u64::MAX ==> r.ptr is Some,
        r.err matches Some(m) ==> m@ == "nul byte found in provided data"@ || m@
            == "out of buffer handles"@,
        match r.ptr {
            Some(a) => {
                &&& r.err is None
                &&& a.len == strings@.len()
                &&& added(old(heap).live(), final(heap).live(), a.ptr.id)
                &&& holds_strings(final(heap).live(), a.ptr.id, a.len as int)
                &&& strings_at(final(heap).live(), a.ptr.id) == texts(strings@)
            },
            None => r.err is Some && final(heap).live() == old(heap).live(),
        },
{
    let n = strings.len();
    let mut i: usize = 0;
    while i < n
        invariant
            n == strings@.len(),
            i <= n,
            forall|j: int| 0 <= j < i ==> !(#[trigger] strings@[j])@.contains('\0'),
        decreases n - i,
    {
        if has_nul(strings[i].as_str()) {
            return Err(String::from_str("nul byte found in provided data")).to_ptr();
        }
        i = i + 1;
    }
    let ghost before = heap.live();
    let ghost entry = Allocation::Strings(strings);
    match heap.insert(Allocation::Strings(strings)) {
        Ok(id) => {
            proof {
                lemma_release_once(before, id, entry);
            }
            Ok(StringArray { ptr: FfiObj { id }, len: n }).to_ptr()
        },
        Err(_) => Err(String::from_str("out of buffer handles")).to_ptr(),
    }
}

/// Releases the list of strings held under `array`.
pub fn free_supported_languages(array: StringArray, heap: &mut Heap) -> (r: Result<(), ReleaseError>)
    ensures
        r is Ok <==> holds_strings(old(heap).live(), array.ptr.id, array.len as int),
        r is Ok ==> final(heap).live() == old(heap).live().remove(array.ptr.id),
        r matches Err(e) ==> final(heap).live() == old(heap).live() && (e is NotLive
            <==> !old(heap).live().contains_key(array.ptr.id)),
{
    match heap.get(array.ptr.id) {
        Some(Allocation::Strings(v)) => {
            if v.len() != array.len {
                return Err(ReleaseError::Mismatch);
            }
        },
        Some(Allocation::Result(_)) => {
            return Err(ReleaseError::Mismatch);
        },
        None => {
            return Err(ReleaseError::NotLive);
        },
    }
    let _ = heap.remove(array.ptr.id);
    Ok(())
}

} // verus!
