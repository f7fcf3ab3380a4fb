use translator_abi::boundary::{
    answer_envelope, backend_outcome, deliver_stream, relay_stream, result_envelope, stream_envelope, ExportedPlugin,
    PluginBoundary,
};
use translator_abi::ffi::{FfiResult, FfiResultExt, Heap, ReleaseError, TranslatorHandle};
use translator_abi::handles::HandleTable;
use translator_abi::language::LanguageTag;
use translator_abi::proxy::{library_path, ProxyTranslator};
use translator_abi::translator::normal2stream;
use translator_abi::{StreamSink, TranslateResult, TranslateStreamChunk, TranslateTask, Translator};

fn task(content: &str) -> TranslateTask {
    TranslateTask {
        id: "1".to_string(),
        content: content.to_string(),
        source_language: Some(LanguageTag::parse("en-US").unwrap()),
        target_language: Some(LanguageTag::parse("fr").unwrap()),
        user_prompt: None,
        system_prompt: None,
        field: None,
        terms: vec![],
        references: vec![],
        extra: None,
    }
}

fn config(text: &str) -> serde_json::Value {
    serde_json::from_str(text).unwrap()
}

/// A backend that echoes its task's content in two pieces and accepts only
/// English and French.
struct Echo {
    prefix: String,
}

impl Translator for Echo {
    fn new(config: serde_json::Value) -> Result<Self, String> {
        match config.get("prefix").and_then(|v| v.as_str()) {
            Some(p) => Ok(Echo { prefix: p.to_string() }),
            None => Err("missing field: prefix".to_string()),
        }
    }

    fn get_supported_input_languages(&self) -> Result<Vec<String>, String> {
        Ok(vec!["en".to_string(), "fr".to_string()])
    }

    fn is_supported_input_language(&self, lang: String) -> Result<bool, String> {
        match lang.as_str() {
            "en" | "fr" => Ok(true),
            "??" => Err("not a language".to_string()),
            _ => Ok(false),
        }
    }

    fn translate(&self, task: TranslateTask) -> Result<TranslateResult, String> {
        Ok(TranslateResult { reasoning: None, content: Some(format!("{}{}", self.prefix, task.content)) })
    }

    fn translate_stream(&self, task: TranslateTask, sink: &mut StreamSink) -> Result<(), String> {
        let (a, b) = task.content.split_at(task.content.len() / 2);
        let pieces = [
            TranslateStreamChunk::Start,
            TranslateStreamChunk::Delta(TranslateResult { reasoning: None, content: Some(format!("{}{}", self.prefix, a)) }),
            TranslateStreamChunk::Delta(TranslateResult { reasoning: None, content: Some(b.to_string()) }),
            TranslateStreamChunk::End,
        ];
        for c in pieces {
            sink.send(c).map_err(|_| "refused".to_string())?;
        }
        Ok(())
    }
}

/// A backend whose stream fails after one delta.
struct Broken;

impl Translator for Broken {
    fn new(_config: serde_json::Value) -> Result<Self, String> {
        Ok(Broken)
    }

    fn translate(&self, _task: TranslateTask) -> Result<TranslateResult, String> {
        Err("service unavailable".to_string())
    }

    fn translate_stream(&self, _task: TranslateTask, sink: &mut StreamSink) -> Result<(), String> {
        sink.send(TranslateStreamChunk::Start).map_err(|_| "refused".to_string())?;
        sink.send(TranslateStreamChunk::Delta(TranslateResult { reasoning: None, content: Some("partial".to_string()) }))
            .map_err(|_| "refused".to_string())?;
        Err("connection lost".to_string())
    }
}

/// A one-shot backend streamed through the adapter.
struct Shout;

impl Translator for Shout {
    fn new(_config: serde_json::Value) -> Result<Self, String> {
        Ok(Shout)
    }

    fn translate(&self, task: TranslateTask) -> Result<TranslateResult, String> {
        Ok(TranslateResult { reasoning: Some("loud".to_string()), content: Some(task.content.to_uppercase()) })
    }

    fn translate_stream(&self, task: TranslateTask, sink: &mut StreamSink) -> Result<(), String> {
        normal2stream(self, task, sink)
    }
}

fn echo_plugin() -> ExportedPlugin<Echo> {
    ExportedPlugin::new("echo".to_string())
}

#[test]
fn plugin_reports_its_name() {
    assert_eq!(PluginBoundary::get_plugin_name(&echo_plugin()), Some("echo".to_string()));
}

#[test]
fn create_refuses_text_that_is_not_json() {
    let mut p = echo_plugin();
    let e = p.create_translator("{not json".to_string());
    assert!(e.ptr.is_none());
    assert!(e.err.unwrap().starts_with("JSON parse error: "));
}

#[test]
fn create_reports_construction_error() {
    let mut p = echo_plugin();
    let e = p.create_translator("{}".to_string());
    assert!(e.ptr.is_none());
    assert_eq!(e.err, Some("Creation error: missing field: prefix".to_string()));
}

#[test]
fn handle_is_released_once() {
    let mut p = echo_plugin();
    let h = p.create_translator(r#"{"prefix": ">"}"#.to_string()).ptr.unwrap();
    assert!(p.destroy_translator(h).is_ok());
    assert!(matches!(p.destroy_translator(h), Err(ReleaseError::NotLive)));
    let mut heap: Heap = HandleTable::new();
    let e = p.call_translate(h, task("x").into_ffi(), &mut heap);
    assert!(e.ptr.is_none());
    assert!(e.err.is_some());
}

#[test]
fn unknown_handle_is_a_failure_not_a_crash() {
    let p = echo_plugin();
    let e = p.is_supported_input_language(TranslatorHandle { id: 99 }, "en".to_string());
    assert!(e.ptr.is_none());
    assert!(e.err.is_some());
}

#[test]
fn queries_answer_with_sentinels() {
    let mut p = echo_plugin();
    let h = p.create_translator(r#"{"prefix": ">"}"#.to_string()).ptr.unwrap();
    assert_eq!(p.is_supported_input_language(h, "en".to_string()).ptr, Some(0));
    assert_eq!(p.is_supported_input_language(h, "de".to_string()).ptr, Some(1));
    let e = p.is_supported_input_language(h, "??".to_string());
    assert_eq!(e.err, Some("backend error: not a language".to_string()));
    assert_eq!(p.is_supported_output_language(h, "xx".to_string()).ptr, Some(0));
}

#[test]
fn answer_envelope_maps_the_answer() {
    assert_eq!(answer_envelope(Ok(true)).ptr, Some(0));
    assert_eq!(answer_envelope(Ok(false)).ptr, Some(1));
    let e = answer_envelope(Err("bad".to_string()));
    assert_eq!(e.ptr, None);
    assert_eq!(e.err, Some("bad".to_string()));
}

#[test]
fn result_envelope_hands_the_record_over() {
    let mut heap: Heap = HandleTable::new();
    let e = result_envelope(Ok(TranslateResult { reasoning: None, content: Some("a".to_string()) }), &mut heap);
    let p = e.ptr.unwrap();
    assert_eq!(TranslateResult::from_ffi(p, &mut heap).unwrap().content, Some("a".to_string()));
    let e = result_envelope(Err("nope".to_string()), &mut heap);
    assert_eq!(e.err, Some("nope".to_string()));
    assert!(heap.is_empty());
}

#[test]
fn relay_delivers_in_order_and_releases_every_buffer() {
    let mut heap: Heap = HandleTable::new();
    let mut sink = StreamSink::new();
    let chunks = vec![
        TranslateStreamChunk::Start,
        TranslateStreamChunk::Delta(TranslateResult { reasoning: None, content: Some("1".to_string()) }),
        TranslateStreamChunk::Delta(TranslateResult { reasoning: None, content: Some("2".to_string()) }),
        TranslateStreamChunk::End,
    ];
    assert!(relay_stream(chunks, &mut sink, &mut heap).is_ok());
    assert!(heap.is_empty());
    let got: Vec<Option<String>> = sink
        .into_chunks()
        .into_iter()
        .map(|c| match c {
            TranslateStreamChunk::Delta(r) => r.content,
            TranslateStreamChunk::Start => Some("<".to_string()),
            TranslateStreamChunk::End => Some(">".to_string()),
        })
        .collect();
    assert_eq!(got, vec![Some("<".to_string()), Some("1".to_string()), Some("2".to_string()), Some(">".to_string())]);
}

#[test]
fn relay_stops_at_a_closed_receiver() {
    let mut heap: Heap = HandleTable::new();
    let mut sink = StreamSink::new();
    sink.close();
    let chunks = vec![
        TranslateStreamChunk::Start,
        TranslateStreamChunk::Delta(TranslateResult { reasoning: None, content: Some("1".to_string()) }),
    ];
    assert!(relay_stream(chunks, &mut sink, &mut heap).is_err());
    assert!(heap.is_empty());
    assert_eq!(sink.len(), 0);
}

#[test]
fn proxy_translates_through_the_boundary() {
    let proxy = ProxyTranslator::with_boundary(echo_plugin(), &config(r#"{"prefix": "> "}"#)).unwrap();
    let r = proxy.translate(task("Hello")).unwrap();
    assert_eq!(r.content, Some("> Hello".to_string()));
    assert_eq!(r.reasoning, None);
    assert!(proxy.close().is_ok());
}

#[test]
fn proxy_streams_through_the_boundary() {
    let proxy = ProxyTranslator::with_boundary(echo_plugin(), &config(r#"{"prefix": ""}"#)).unwrap();
    let mut sink = StreamSink::new();
    proxy.translate_stream(task("Hello"), &mut sink).unwrap();
    assert!(sink.is_finished());
    let chunks = sink.into_chunks();
    assert_eq!(chunks.len(), 4);
    assert!(matches!(chunks[0], TranslateStreamChunk::Start));
    assert!(matches!(chunks[3], TranslateStreamChunk::End));
    let texts: Vec<String> = chunks
        .into_iter()
        .filter_map(|c| match c {
            TranslateStreamChunk::Delta(r) => r.content,
            _ => None,
        })
        .collect();
    assert_eq!(texts, vec!["He".to_string(), "llo".to_string()]);
}

#[test]
fn proxy_reports_a_failed_stream_after_relaying_its_chunks() {
    let proxy = ProxyTranslator::with_boundary(ExportedPlugin::<Broken>::new("broken".to_string()), &config("{}")).unwrap();
    let mut sink = StreamSink::new();
    let e = proxy.translate_stream(task("Hello"), &mut sink).unwrap_err();
    assert!(e.contains("connection lost"));
    assert_eq!(sink.len(), 2);
    assert!(!sink.is_finished());
    assert!(proxy.translate(task("Hello")).unwrap_err().contains("service unavailable"));
}

#[test]
fn proxy_streams_a_one_shot_backend() {
    let proxy = ProxyTranslator::with_boundary(ExportedPlugin::<Shout>::new("shout".to_string()), &config("null")).unwrap();
    let mut sink = StreamSink::new();
    proxy.translate_stream(task("hello"), &mut sink).unwrap();
    let chunks = sink.into_chunks();
    assert_eq!(chunks.len(), 3);
    match &chunks[1] {
        TranslateStreamChunk::Delta(r) => {
            assert_eq!(r.content, Some("HELLO".to_string()));
            assert_eq!(r.reasoning, Some("loud".to_string()));
        }
        _ => panic!("not a delta"),
    }
}

#[test]
fn proxy_queries_languages() {
    let proxy = ProxyTranslator::with_boundary(echo_plugin(), &config(r#"{"prefix": ""}"#)).unwrap();
    assert_eq!(proxy.get_supported_input_languages().unwrap(), vec!["en".to_string(), "fr".to_string()]);
    assert_eq!(proxy.get_supported_output_languages().unwrap(), Vec::<String>::new());
    assert_eq!(proxy.is_supported_input_language("fr".to_string()), Ok(true));
    assert_eq!(proxy.is_supported_input_language("de".to_string()), Ok(false));
    assert!(proxy.is_supported_input_language("??".to_string()).is_err());
    assert!(proxy.is_supported_input_language("e\0n".to_string()).is_err());
    assert_eq!(proxy.is_supported_output_language("de".to_string()), Ok(true));
}

#[test]
fn proxy_refuses_a_construction_error() {
    match ProxyTranslator::with_boundary(echo_plugin(), &config("{}")) {
        Err(e) => assert!(e.contains("missing field: prefix")),
        Ok(_) => panic!("construction should fail"),
    }
}

#[test]
fn each_instance_gets_its_own_handle() {
    let mut p = echo_plugin();
    let a = p.create_translator(r#"{"prefix": "a"}"#.to_string()).ptr.unwrap();
    let b = p.create_translator(r#"{"prefix": "b"}"#.to_string()).ptr.unwrap();
    assert_ne!(a.id, b.id);
    let mut heap: Heap = HandleTable::new();
    let ra = p.call_translate(a, task("1").into_ffi(), &mut heap).ptr.unwrap();
    let rb = p.call_translate(b, task("2").into_ffi(), &mut heap).ptr.unwrap();
    assert_eq!(TranslateResult::from_ffi(ra, &mut heap).unwrap().content, Some("a1".to_string()));
    assert_eq!(TranslateResult::from_ffi(rb, &mut heap).unwrap().content, Some("b2".to_string()));
    assert!(heap.is_empty());
    assert!(p.destroy_translator(a).is_ok());
    assert!(p.destroy_translator(b).is_ok());
}

#[test]
fn adopted_translator_gets_a_live_handle() {
    let mut p = echo_plugin();
    let h = p.adopt_translator(Echo { prefix: "+".to_string() }).ptr.unwrap();
    let mut heap: Heap = HandleTable::new();
    let r = p.call_translate(h, task("x").into_ffi(), &mut heap).ptr.unwrap();
    assert_eq!(TranslateResult::from_ffi(r, &mut heap).unwrap().content, Some("+x".to_string()));
    assert!(p.destroy_translator(h).is_ok());
}

#[test]
fn stream_into_a_used_sink_is_refused() {
    let proxy = ProxyTranslator::with_boundary(echo_plugin(), &config(r#"{"prefix": ""}"#)).unwrap();
    let mut sink = StreamSink::new();
    sink.send(TranslateStreamChunk::Start).unwrap();
    assert!(proxy.translate_stream(task("Hello"), &mut sink).is_err());
    assert_eq!(sink.len(), 1);
}

#[test]
fn stream_envelope_orders_its_reasons() {
    let e = stream_envelope(Err("backend".to_string()), Err("relay".to_string()));
    assert_eq!(e.err, Some("backend".to_string()));
    let e = stream_envelope(Ok(()), Err("relay".to_string()));
    assert_eq!(e.err, Some("relay".to_string()));
    let e = stream_envelope(Ok(()), Ok(()));
    assert_eq!(e.ptr, Some(0));
    assert!(e.err.is_none());
}

#[test]
fn deliver_stream_hands_on_chunks_of_a_failed_backend() {
    let mut heap: Heap = HandleTable::new();
    let mut sink = StreamSink::new();
    let chunks = vec![
        TranslateStreamChunk::Start,
        TranslateStreamChunk::Delta(TranslateResult { reasoning: None, content: Some("part".to_string()) }),
    ];
    let e = deliver_stream(Err("backend error: lost".to_string()), chunks, &mut sink, &mut heap);
    assert_eq!(e.err, Some("backend error: lost".to_string()));
    assert_eq!(sink.len(), 2);
    assert!(heap.is_empty());
}

#[test]
fn deliver_stream_accepts_a_stream_without_end() {
    let mut heap: Heap = HandleTable::new();
    let mut sink = StreamSink::new();
    let e = deliver_stream(Ok(()), vec![TranslateStreamChunk::Start], &mut sink, &mut heap);
    assert_eq!(e.ptr, Some(0));
    assert!(e.err.is_none());
    assert_eq!(sink.len(), 1);
}

#[test]
fn a_closed_receiver_closes_the_backends_stream() {
    let p = {
        let mut p = echo_plugin();
        let _ = p.create_translator(r#"{"prefix": ""}"#.to_string());
        p
    };
    let mut heap: Heap = HandleTable::new();
    let mut sink = StreamSink::new();
    sink.close();
    let e = p.call_translate_stream(TranslatorHandle { id: 0 }, task("Hello").into_ffi(), &mut sink, &mut heap);
    assert!(e.ptr.is_none());
    assert!(e.err.unwrap().starts_with("backend error: "));
    assert_eq!(sink.len(), 0);
}

#[test]
fn construction_outcome_is_handed_on() {
    let mut p = echo_plugin();
    let e = p.adopt_built(Err("bad key".to_string()));
    assert_eq!(e.err, Some("Creation error: bad key".to_string()));
    assert!(e.ptr.is_none());
    let h = p.adopt_built(Ok(Echo { prefix: String::new() })).ptr.unwrap();
    assert!(p.destroy_translator(h).is_ok());
}

#[test]
fn proxy_keeps_the_created_handle_or_its_error() {
    let p = ProxyTranslator::from_created(echo_plugin(), Ok(TranslatorHandle { id: 3 }).to_ptr()).ok().unwrap();
    assert_eq!(p.handle().id, 3);
    let e: FfiResult<TranslatorHandle> = Err("nope".to_string()).to_ptr();
    match ProxyTranslator::from_created(echo_plugin(), e) {
        Err(m) => assert_eq!(m, "result's error: nope"),
        Ok(_) => panic!("should fail"),
    }
}

#[test]
fn missing_library_path_is_reported() {
    assert_eq!(library_path(None), Err("missing argument: path".to_string()));
    assert_eq!(library_path(Some("/p/x.so".to_string())), Ok("/p/x.so".to_string()));
}

#[test]
fn backend_failures_are_marked() {
    assert_eq!(backend_outcome::<u8>(Ok(3)), Ok(3));
    assert_eq!(backend_outcome::<u8>(Err("down".to_string())), Err("backend error: down".to_string()));
}

#[test]
fn library_messages_name_their_cause() {
    let mut p = echo_plugin();
    let e = p.create_translator("[".to_string());
    assert!(e.err.unwrap().starts_with("JSON parse error: "));
    let mut heap: Heap = HandleTable::new();
    let e = p.call_translate(TranslatorHandle { id: 5 }, task("x").into_ffi(), &mut heap);
    assert_eq!(e.err, Some("Null pointer received".to_string()));
    let mut bad = task("x").into_ffi();
    bad.target_language = Some("not a tag".to_string());
    let e = p.call_translate(TranslatorHandle { id: 5 }, bad, &mut heap);
    assert!(e.err.unwrap().starts_with("task decode error: "));
}
