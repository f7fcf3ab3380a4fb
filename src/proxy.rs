//! The host side: a [`Translator`] that forwards every call across a
//! plugin boundary.

use vstd::prelude::*;
use crate::boundary::PluginBoundary;
use crate::ffi::{
    Allocation, FfiObj, FfiResult, Heap, StringArray, TranslatorHandle, has_nul, holds_strings,
    strings_at, support_from_sentinel, texts, unwrap_handle_result, unwrap_outcome,
};
use crate::json::{empty_json_object, json_is_null, json_text_field, with_text_field, write_json};
use crate::model::{StreamSink, TranslateResult, is_complete_stream, is_finished, is_stream_prefix};
use crate::task::TranslateTask;
use crate::translator::Translator;

verus! {

/// A plugin library that can be opened from a path.
pub trait PluginLibrary: PluginBoundary + Sized {
    /// Opens the library at `path` and resolves its operations.
    fn open(path: String) -> Result<Self, String>;
}

/// The configuration key that names the library of a proxied translator.
pub const LIBRARY_PATH_KEY: &'static str = "_dll_path";

/// Takes the list of strings held under `array` and releases it.
pub fn unwrap_ffi_list(array: StringArray, heap: &mut Heap) -> (r: Result<Vec<String>, String>)
    ensures
        r is Ok <==> holds_strings(old(heap).live(), array.ptr.id, array.len as int),
        match r {
            Ok(v) => {
                &&& texts(v@) == strings_at(old(heap).live(), array.ptr.id)
                &&& final(heap).live() == old(heap).live().remove(array.ptr.id)
            },
            Err(_) => final(heap).live() == old(heap).live(),
        },
{
    match heap.get(array.ptr.id) {
        Some(Allocation::Strings(v)) => {
            if v.len() != array.len {
                return Err(String::from_str("string list length mismatch"));
            }
        },
        _ => {
            return Err(String::from_str("null pointer received from ffi"));
        },
    }
    match heap.remove(array.ptr.id) {
        Some(Allocation::Strings(v)) => Ok(v),
        _ => Err(String::from_str("null pointer received from ffi")),
    }
}

/// The library path found in a configuration, or the error for a
/// configuration without one.
pub fn library_path(found: Option<String>) -> (r: Result<String, String>)
    ensures
        found is None ==> (r matches Err(m) && m@ == "missing argument: path"@),
        found matches Some(p) ==> r == Ok::<String, String>(p),
{
    match found {
        Some(p) => Ok(p),
        None => Err(String::from_str("missing argument: path")),
    }
}

/// A translator that lives behind a plugin boundary. It owns the boundary
/// and the handle of the instance it created there; `close` releases the
/// handle before the boundary itself goes. A proxy that is dropped without
/// `close` leaves its instance to the boundary, which releases what it still
/// holds when it goes; call `close` to release the instance first.
pub struct ProxyTranslator<B> {
    boundary: B,
    handle: TranslatorHandle,
}

impl<B: PluginBoundary> ProxyTranslator<B> {
    /// Creates a translator behind `boundary` from `config`, which crosses
    /// as text.
    pub fn with_boundary(boundary: B, config: &serde_json::Value) -> (r: Result<
        ProxyTranslator<B>,
        String,
    >) {
        let text = write_json(config)?;
        let mut boundary = boundary;
        let created = boundary.create_translator(text);
        ProxyTranslator::from_created(boundary, created)
    }

    /// Keeps the boundary and the handle that its `create_translator`
    /// answered with, or hands on why there is none.
    pub fn from_created(boundary: B, created: FfiResult<TranslatorHandle>) -> (r: Result<
        ProxyTranslator<B>,
        String,
    >)
        ensures
            r is Ok <==> unwrap_outcome(created) is Ok,
            r matches Ok(p) ==> unwrap_outcome(created) == Ok::<TranslatorHandle, Seq<char>>(
                p.handle_spec(),
            ) && p.boundary_spec() == boundary,
            r matches Err(m) ==> unwrap_outcome(created) == Err::<TranslatorHandle, Seq<char>>(m@),
    {
        let handle = unwrap_handle_result(created)?;
        Ok(ProxyTranslator { boundary, handle })
    }

    /// The handle of the instance behind the boundary.
    pub closed spec fn handle_spec(&self) -> TranslatorHandle {
        self.handle
    }

    /// The boundary that this translator forwards to.
    pub closed spec fn boundary_spec(&self) -> B {
        self.boundary
    }

    /// The handle of the instance behind the boundary.
    pub fn handle(&self) -> (r: TranslatorHandle)
        ensures
            r == self.handle_spec(),
    {
        self.handle
    }

    /// The boundary that this translator forwards to.
    pub fn boundary(&self) -> (r: &B)
        ensures
            *r == self.boundary_spec(),
    {
        &self.boundary
    }

    /// The source languages, read from the list handed across and then
    /// released.
    pub fn get_supported_input_languages(&self) -> (r: Result<Vec<String>, String>) {
        let mut heap = Heap::new();
        let answer = self.boundary.get_supported_input_languages(self.handle, &mut heap);
        let array = unwrap_handle_result(answer)?;
        unwrap_ffi_list(array, &mut heap)
    }

    /// The target languages, read from the list handed across and then
    /// released.
    pub fn get_supported_output_languages(&self) -> (r: Result<Vec<String>, String>) {
        let mut heap = Heap::new();
        let answer = self.boundary.get_supported_output_languages(self.handle, &mut heap);
        let array = unwrap_handle_result(answer)?;
        unwrap_ffi_list(array, &mut heap)
    }

    /// Whether the language is accepted as source: the boundary's sentinel
    /// decides, and a sentinel other than the two answers is an error.
    pub fn is_supported_input_language(&self, lang: String) -> (r: Result<bool, String>)
        ensures
            lang@.contains('\0') ==> r is Err,
    {
        if has_nul(lang.as_str()) {
            return Err(String::from_str("nul byte found in provided data"));
        }
        support_from_sentinel(self.boundary.is_supported_input_language(self.handle, lang))
    }

    /// Whether the language is produced as target: the boundary's sentinel
    /// decides, and a sentinel other than the two answers is an error.
    pub fn is_supported_output_language(&self, lang: String) -> (r: Result<bool, String>)
        ensures
            lang@.contains('\0') ==> r is Err,
    {
        if has_nul(lang.as_str()) {
            return Err(String::from_str("nul byte found in provided data"));
        }
        support_from_sentinel(self.boundary.is_supported_output_language(self.handle, lang))
    }

    /// Sends the task across, then takes the result record handed back and
    /// releases it.
    pub fn translate(&self, task: TranslateTask) -> (r: Result<TranslateResult, String>) {
        let mut heap = Heap::new();
        let answer = self.boundary.call_translate(self.handle, task.into_ffi(), &mut heap);
        let ptr: FfiObj = unwrap_handle_result(answer)?;
        TranslateResult::from_ffi(ptr, &mut heap)
    }

    /// Sends the task across; the chunks arrive in `sink` through the
    /// boundary's callback. Succeeds when the boundary reports success; a
    /// stream that stopped without `End` still counts.
    pub fn translate_stream(&self, task: TranslateTask, sink: &mut StreamSink) -> (r: Result<
        (),
        String,
    >)
        ensures
            is_stream_prefix(final(sink)@),
            r is Ok && old(sink)@.len() == 0 && is_finished(final(sink)@) ==> is_complete_stream(
                final(sink)@,
            ),
    {
        let mut heap = Heap::new();
        let answer = self.boundary.call_translate_stream(
            self.handle,
            task.into_ffi(),
            sink,
            &mut heap,
        );
        let outcome = unwrap_handle_result(answer);
        let finished = sink.is_finished();
        proof {
            if finished {
                crate::model::lemma_finished_stream_is_complete(sink@);
            }
        }
        match outcome {
            Ok(_) => Ok(()),
            Err(e) => Err(e),
        }
    }

    /// Releases the instance behind the boundary, then the boundary.
    pub fn close(self) -> (r: Result<(), String>) {
        let ProxyTranslator { boundary, handle } = self;
        let mut boundary = boundary;
        match boundary.destroy_translator(handle) {
            Ok(()) => Ok(()),
            Err(_) => Err(String::from_str("translator handle was already released")),
        }
    }
}

impl<B: PluginLibrary> ProxyTranslator<B> {
    /// Opens the library that the configuration names under
    /// [`LIBRARY_PATH_KEY`] and creates a translator there: the path is
    /// read through [`library_path`], the answer through [`Self::from_created`].
    pub fn from_config(config: serde_json::Value) -> (r: Result<ProxyTranslator<B>, String>) {
        let path = library_path(json_text_field(&config, LIBRARY_PATH_KEY))?;
        let boundary = B::open(path)?;
        ProxyTranslator::with_boundary(boundary, &config)
    }

    /// Opens the library at `path` and creates a translator there from
    /// `config`, which also records the path; a null configuration counts as
    /// an empty object.
    pub fn load(path: String, config: serde_json::Value) -> (r: Result<ProxyTranslator<B>, String>) {
        let config = if json_is_null(&config) {
            empty_json_object()
        } else {
            config
        };
        let config = with_text_field(config, LIBRARY_PATH_KEY, path);
        <ProxyTranslator<B> as Translator>::new(config)
    }
}

impl<B: PluginLibrary> Translator for ProxyTranslator<B> {
    fn new(config: serde_json::Value) -> Result<ProxyTranslator<B>, String> {
        ProxyTranslator::from_config(config)
    }

    fn get_supported_input_languages(&self) -> Result<Vec<String>, String> {
        ProxyTranslator::get_supported_input_languages(self)
    }

    fn get_supported_output_languages(&self) -> Result<Vec<String>, String> {
        ProxyTranslator::get_supported_output_languages(self)
    }

    fn is_supported_input_language(&self, lang: String) -> Result<bool, String> {
        ProxyTranslator::is_supported_input_language(self, lang)
    }

    fn is_supported_output_language(&self, lang: String) -> Result<bool, String> {
        ProxyTranslator::is_supported_output_language(self, lang)
    }

    fn translate(&self, task: TranslateTask) -> Result<TranslateResult, String> {
        ProxyTranslator::translate(self, task)
    }

    fn translate_stream(&self, task: TranslateTask, sink: &mut StreamSink) -> Result<(), String> {
        ProxyTranslator::translate_stream(self, task, sink)
    }
}

} // verus!
