use translator_abi::language::LanguageTag;
use translator_abi::model::SendError;
use translator_abi::translator::{collect_stream, finish_stream, normal2stream, stream2normal, stream_outcome, stream_result};
use translator_abi::{StreamSink, TranslateResult, TranslateStreamChunk, TranslateTask, Translator};

fn task(content: &str, target: Option<&str>) -> TranslateTask {
    TranslateTask {
        id: "123456".to_string(),
        content: content.to_string(),
        source_language: None,
        target_language: target.map(|t| LanguageTag::parse(t).unwrap()),
        user_prompt: None,
        system_prompt: None,
        field: None,
        terms: vec![],
        references: vec![],
        extra: None,
    }
}

fn delta(content: &str) -> TranslateStreamChunk {
    TranslateStreamChunk::Delta(TranslateResult { reasoning: None, content: Some(content.to_string()) })
}

/// Streams `Start`, `Delta "He"`, `Delta "llo"`, `End`.
struct Echo;

impl Translator for Echo {
    fn new(_config: serde_json::Value) -> Result<Self, String> {
        Ok(Echo)
    }

    fn translate(&self, _task: TranslateTask) -> Result<TranslateResult, String> {
        Err("one-shot translation is not offered".to_string())
    }

    fn translate_stream(&self, _task: TranslateTask, sink: &mut StreamSink) -> Result<(), String> {
        for c in [TranslateStreamChunk::Start, delta("He"), delta("llo"), TranslateStreamChunk::End] {
            sink.send(c).map_err(|_| "refused".to_string())?;
        }
        Ok(())
    }
}

/// Translates "Hello" to French in one step, with reasoning.
struct Bonjour;

impl Translator for Bonjour {
    fn new(_config: serde_json::Value) -> Result<Self, String> {
        Ok(Bonjour)
    }

    fn translate(&self, task: TranslateTask) -> Result<TranslateResult, String> {
        if task.content == "Hello" {
            Ok(TranslateResult { reasoning: Some("because".to_string()), content: Some("Bonjour".to_string()) })
        } else {
            Err("unknown text".to_string())
        }
    }

    fn translate_stream(&self, task: TranslateTask, sink: &mut StreamSink) -> Result<(), String> {
        normal2stream(self, task, sink)
    }
}

/// Streams `Start` and one `Delta`, then returns without `End`.
struct Unfinished;

impl Translator for Unfinished {
    fn new(_config: serde_json::Value) -> Result<Self, String> {
        Ok(Unfinished)
    }

    fn translate(&self, _task: TranslateTask) -> Result<TranslateResult, String> {
        Err("no".to_string())
    }

    fn translate_stream(&self, _task: TranslateTask, sink: &mut StreamSink) -> Result<(), String> {
        sink.send(TranslateStreamChunk::Start).map_err(|_| "refused".to_string())?;
        sink.send(delta("x")).map_err(|_| "refused".to_string())?;
        Ok(())
    }
}

fn kinds(chunks: &[TranslateStreamChunk]) -> Vec<&'static str> {
    chunks
        .iter()
        .map(|c| match c {
            TranslateStreamChunk::Start => "start",
            TranslateStreamChunk::Delta(_) => "delta",
            TranslateStreamChunk::End => "end",
        })
        .collect()
}

#[test]
fn echo_stream_adapter_joins_deltas() {
    let r = stream2normal(&Echo, task("Hello", None)).unwrap();
    assert_eq!(r.reasoning, None);
    assert_eq!(r.content, Some("Hello".to_string()));
}

#[test]
fn stream_adapter_accepts_stream_without_end() {
    let r = stream2normal(&Unfinished, task("Hello", None)).unwrap();
    assert_eq!(r.content, Some("x".to_string()));
    assert_eq!(r.reasoning, None);
}

#[test]
fn one_shot_adapter_emits_three_chunks() {
    let mut sink = StreamSink::new();
    normal2stream(&Bonjour, task("Hello", Some("fr")), &mut sink).unwrap();
    let chunks = sink.into_chunks();
    assert_eq!(kinds(&chunks), vec!["start", "delta", "end"]);
    match &chunks[1] {
        TranslateStreamChunk::Delta(r) => {
            assert_eq!(r.reasoning, Some("because".to_string()));
            assert_eq!(r.content, Some("Bonjour".to_string()));
        }
        _ => panic!("second chunk is not a delta"),
    }
}

#[test]
fn one_shot_adapter_failure_sends_no_end() {
    let mut sink = StreamSink::new();
    assert!(normal2stream(&Bonjour, task("Goodbye", Some("fr")), &mut sink).is_err());
    assert!(!sink.is_finished());
    assert_eq!(kinds(sink.chunks()), vec!["start"]);
}

#[test]
fn one_shot_adapter_needs_an_empty_sink() {
    let mut sink = StreamSink::new();
    sink.send(TranslateStreamChunk::Start).unwrap();
    assert!(normal2stream(&Bonjour, task("Hello", Some("fr")), &mut sink).is_err());
    assert_eq!(sink.len(), 1);
}

#[test]
fn sink_accepts_start_deltas_end() {
    let mut sink = StreamSink::new();
    assert!(sink.send(TranslateStreamChunk::Start).is_ok());
    assert!(sink.send(delta("a")).is_ok());
    assert!(sink.send(delta("b")).is_ok());
    assert!(!sink.is_finished());
    assert!(sink.send(TranslateStreamChunk::End).is_ok());
    assert!(sink.is_finished());
    let chunks = sink.into_chunks();
    assert_eq!(kinds(&chunks), vec!["start", "delta", "delta", "end"]);
}

#[test]
fn sink_refuses_chunks_out_of_order() {
    let mut sink = StreamSink::new();
    assert!(matches!(sink.send(delta("a")), Err(SendError::OutOfOrder)));
    assert!(matches!(sink.send(TranslateStreamChunk::End), Err(SendError::OutOfOrder)));
    assert_eq!(sink.len(), 0);
    sink.send(TranslateStreamChunk::Start).unwrap();
    assert!(matches!(sink.send(TranslateStreamChunk::Start), Err(SendError::OutOfOrder)));
    sink.send(TranslateStreamChunk::End).unwrap();
    assert!(matches!(sink.send(delta("late")), Err(SendError::OutOfOrder)));
    assert!(matches!(sink.send(TranslateStreamChunk::End), Err(SendError::OutOfOrder)));
    assert_eq!(sink.len(), 2);
}

#[test]
fn closed_sink_refuses_everything() {
    let mut sink = StreamSink::new();
    sink.send(TranslateStreamChunk::Start).unwrap();
    sink.close();
    assert!(matches!(sink.send(delta("a")), Err(SendError::Closed)));
    assert!(matches!(sink.send(TranslateStreamChunk::End), Err(SendError::Closed)));
    assert_eq!(sink.len(), 1);
}

#[test]
fn collect_stream_skips_empty_deltas_and_reasoning() {
    let chunks = vec![
        TranslateStreamChunk::Start,
        TranslateStreamChunk::Delta(TranslateResult { reasoning: Some("think".to_string()), content: None }),
        delta("Bon"),
        delta("jour"),
        TranslateStreamChunk::End,
    ];
    let r = collect_stream(&chunks);
    assert_eq!(r.reasoning, None);
    assert_eq!(r.content, Some("Bonjour".to_string()));
    assert_eq!(collect_stream(&vec![]).content, Some(String::new()));
}

#[test]
fn stream_result_needs_an_open_stream() {
    let mut sink = StreamSink::new();
    let r = TranslateResult { reasoning: None, content: Some("x".to_string()) };
    assert!(stream_result(r, &mut sink).is_err());
    sink.send(TranslateStreamChunk::Start).unwrap();
    let r = TranslateResult { reasoning: None, content: Some("x".to_string()) };
    assert!(stream_result(r, &mut sink).is_ok());
    assert_eq!(kinds(sink.chunks()), vec!["start", "delta", "end"]);
}

#[test]
fn finish_stream_decides_from_outcome_and_chunks() {
    let done = vec![TranslateStreamChunk::Start, delta("He"), delta("llo"), TranslateStreamChunk::End];
    assert_eq!(finish_stream(Ok(()), &done).unwrap().content, Some("Hello".to_string()));
    assert_eq!(finish_stream(Err("boom".to_string()), &done).unwrap_err(), "boom");
    let open = vec![TranslateStreamChunk::Start, delta("He")];
    assert_eq!(finish_stream(Ok(()), &open).unwrap().content, Some("He".to_string()));
    assert_eq!(finish_stream(Ok(()), &vec![TranslateStreamChunk::Start]).unwrap().content, Some(String::new()));
}

#[test]
fn stream_outcome_hands_on_a_failure_without_sending() {
    let mut sink = StreamSink::new();
    sink.send(TranslateStreamChunk::Start).unwrap();
    assert_eq!(stream_outcome(Err("down".to_string()), &mut sink), Err("down".to_string()));
    assert_eq!(kinds(sink.chunks()), vec!["start"]);
    let r = TranslateResult { reasoning: None, content: Some("ok".to_string()) };
    assert!(stream_outcome(Ok(r), &mut sink).is_ok());
    assert_eq!(kinds(sink.chunks()), vec!["start", "delta", "end"]);
}
