//! Translation tasks and the record in which a task crosses the boundary.

use vstd::prelude::*;
use crate::language::{LanguageTag, is_tag_text};
use crate::model::opt_text;

verus! {

/// One glossary or reference pair.
#[derive(Debug)]
pub struct TranslatedItem {
    pub source: String,
    pub target: String,
}

/// What a [`TranslatedItem`] holds.
pub struct ItemView {
    pub source: Seq<char>,
    pub target: Seq<char>,
}

impl View for TranslatedItem {
    type V = ItemView;

    open spec fn view(&self) -> ItemView {
        ItemView { source: self.source@, target: self.target@ }
    }
}

/// The items of a list, as views.
pub open spec fn item_views(s: Seq<TranslatedItem>) -> Seq<ItemView> {
    s.map_values(|i: TranslatedItem| i@)
}

/// Text of an optional language tag.
pub open spec fn opt_tag(o: Option<LanguageTag>) -> Option<Seq<char>> {
    match o {
        Some(t) => Some(t@),
        None => None,
    }
}

/// What a task holds, on either side of the boundary: language tags are
/// their text.
pub struct TaskView {
    pub id: Seq<char>,
    pub content: Seq<char>,
    pub source_language: Option<Seq<char>>,
    pub target_language: Option<Seq<char>>,
    pub user_prompt: Option<Seq<char>>,
    pub system_prompt: Option<Seq<char>>,
    pub field: Option<Seq<char>>,
    pub terms: Seq<ItemView>,
    pub references: Seq<ItemView>,
    pub extra: Option<serde_json::Value>,
}

/// One unit of work for a translator. Built once by the caller and then
/// only moved; the order of `terms` and `references` is meaningful.
#[derive(Debug)]
pub struct TranslateTask {
    pub id: String,
    pub content: String,
    pub source_language: Option<LanguageTag>,
    pub target_language: Option<LanguageTag>,
    pub user_prompt: Option<String>,
    pub system_prompt: Option<String>,
    pub field: Option<String>,
    pub terms: Vec<TranslatedItem>,
    pub references: Vec<TranslatedItem>,
    pub extra: Option<serde_json::Value>,
}

impl View for TranslateTask {
    type V = TaskView;

    open spec fn view(&self) -> TaskView {
        TaskView {
            id: self.id@,
            content: self.content@,
            source_language: opt_tag(self.source_language),
            target_language: opt_tag(self.target_language),
            user_prompt: opt_text(self.user_prompt),
            system_prompt: opt_text(self.system_prompt),
            field: opt_text(self.field),
            terms: item_views(self.terms@),
            references: item_views(self.references@),
            extra: self.extra,
        }
    }
}

/// A task as it crosses the boundary: every language tag is plain text.
#[derive(Debug)]
pub struct TranslateTaskFFI {
    pub id: String,
    pub content: String,
    pub source_language: Option<String>,
    pub target_language: Option<String>,
    pub user_prompt: Option<String>,
    pub system_prompt: Option<String>,
    pub field: Option<String>,
    pub terms: Vec<TranslatedItem>,
    pub references: Vec<TranslatedItem>,
    pub extra: Option<serde_json::Value>,
}

impl View for TranslateTaskFFI {
    type V = TaskView;

    open spec fn view(&self) -> TaskView {
        TaskView {
            id: self.id@,
            content: self.content@,
            source_language: opt_text(self.source_language),
            target_language: opt_text(self.target_language),
            user_prompt: opt_text(self.user_prompt),
            system_prompt: opt_text(self.system_prompt),
            field: opt_text(self.field),
            terms: item_views(self.terms@),
            references: item_views(self.references@),
            extra: self.extra,
        }
    }
}

/// An optional tag text is absent or parses.
pub open spec fn opt_tag_text_ok(o: Option<Seq<char>>) -> bool {
    match o {
        Some(t) => is_tag_text(t),
        None => true,
    }
}

/// The receiving side can read a task from this view: each language tag it
/// names parses.
pub open spec fn is_readable_task(v: TaskView) -> bool {
    opt_tag_text_ok(v.source_language) && opt_tag_text_ok(v.target_language)
}

/// Every language tag of the task holds text that parses; true of every
/// task that exec code holds.
pub open spec fn is_valid_task(t: TranslateTask) -> bool {
    is_readable_task(t@)
}

/// The text of an optional tag.
fn tag_text(tag: Option<LanguageTag>) -> (r: Option<String>)
    ensures
        opt_text(r) == opt_tag(tag),
        opt_tag_text_ok(opt_text(r)),
{
    match tag {
        Some(t) => Some(t.text().clone()),
        None => None,
    }
}

/// Parses an optional tag text.
fn read_tag(text: Option<String>) -> (r: Result<Option<LanguageTag>, String>)
    ensures
        r is Ok <==> opt_tag_text_ok(opt_text(text)),
        r matches Ok(t) ==> opt_tag(t) == opt_text(text),
{
    match text {
        Some(s) => match LanguageTag::parse(s.as_str()) {
            Ok(t) => Ok(Some(t)),
            Err(e) => Err(e),
        },
        None => Ok(None),
    }
}

impl TranslateTask {
    /// Writes the task into its boundary record.
    pub fn into_ffi(self) -> (r: TranslateTaskFFI)
        ensures
            r@ == encode_task(self@),
            is_readable_task(r@),
    {
        let TranslateTask {
            id,
            content,
            source_language,
            target_language,
            user_prompt,
            system_prompt,
            field,
            terms,
            references,
            extra,
        } = self;
        TranslateTaskFFI {
            id,
            content,
            source_language: tag_text(source_language),
            target_language: tag_text(target_language),
            user_prompt,
            system_prompt,
            field,
            terms,
            references,
            extra,
        }
    }

    /// Reads a task from its boundary record; fails when a language tag
    /// does not parse.
    pub fn from_ffi(record: TranslateTaskFFI) -> (r: Result<TranslateTask, String>)
        ensures
            r is Ok <==> decode_task(record@) is Some,
            r matches Ok(t) ==> decode_task(record@) == Some(t@),
    {
        let TranslateTaskFFI {
            id,
            content,
            source_language,
            target_language,
            user_prompt,
            system_prompt,
            field,
            terms,
            references,
            extra,
        } = record;
        let source_language = read_tag(source_language)?;
        let target_language = read_tag(target_language)?;
        Ok(
            TranslateTask {
                id,
                content,
                source_language,
                target_language,
                user_prompt,
                system_prompt,
                field,
                terms,
                references,
                extra,
            },
        )
    }
}

/// The boundary record of a task: language tags travel as their text, so
/// the record holds what the task holds.
pub open spec fn encode_task(v: TaskView) -> TaskView {
    v
}

/// What the receiving side reads from a record: the same task, when each of
/// its language tags parses.
pub open spec fn decode_task(v: TaskView) -> Option<TaskView> {
    if is_readable_task(v) {
        Some(v)
    } else {
        None
    }
}

/// Writing a valid task into its boundary record and reading it back gives
/// a task equal to the one written in every field.
pub proof fn lemma_task_round_trip(task: TranslateTask)
    requires
        is_valid_task(task),
    ensures
        decode_task(encode_task(task@)) == Some(task@),
{
}

} // verus!
