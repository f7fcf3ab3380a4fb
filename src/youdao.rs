//! The language table of the Youdao large-model translation backend.

use vstd::prelude::*;
use crate::ffi::texts;
use crate::language::{LanguageTag, is_tag_text, tag_primary};
use crate::text::{eq_ignore_ascii_case, same_ignoring_ascii_case, text_eq};

verus! {

/// A language that Youdao translates.
#[derive(Debug, Clone, Copy, PartialEq, Eq, Structural)]
pub enum YoudaoLLMLanguages {
    /// Simplified Chinese
    Chinese,
    /// English
    English,
}

/// The language of a primary language subtag, compared without regard to ASCII case.
pub open spec fn youdao_language_of(primary: Seq<char>) -> Option<YoudaoLLMLanguages> {
    if same_ignoring_ascii_case(primary, "zh"@) {
        Some(YoudaoLLMLanguages::Chinese)
    } else if same_ignoring_ascii_case(primary, "en"@) {
        Some(YoudaoLLMLanguages::English)
    } else {
        None
    }
}

/// The code under which Youdao knows a language.
pub open spec fn youdao_language_name(v: YoudaoLLMLanguages) -> Seq<char> {
    match v {
        YoudaoLLMLanguages::Chinese => "zh-CHS"@,
        YoudaoLLMLanguages::English => "en"@,
    }
}

impl YoudaoLLMLanguages {
    /// The language of a primary language subtag.
    pub fn from_primary(primary: &str) -> (r: Option<YoudaoLLMLanguages>)
        ensures
            r == youdao_language_of(primary@),
    {
        if eq_ignore_ascii_case(primary, "zh") {
            Some(YoudaoLLMLanguages::Chinese)
        } else if eq_ignore_ascii_case(primary, "en") {
            Some(YoudaoLLMLanguages::English)
        } else {
            None
        }
    }

    /// The language of a tag, by its primary language subtag.
    pub fn try_from(tag: &LanguageTag) -> (r: Result<YoudaoLLMLanguages, String>)
        ensures
            match r {
                Ok(l) => youdao_language_of(tag_primary(tag@)) == Some(l),
                Err(_) => youdao_language_of(tag_primary(tag@)) is None,
            },
    {
        match YoudaoLLMLanguages::from_primary(tag.primary_language()) {
            Some(l) => Ok(l),
            None => Err(tag.unsupported_message()),
        }
    }

    /// The code under which Youdao knows the language.
    pub fn to_string(&self) -> (r: String)
        ensures
            r@ == youdao_language_name(*self),
    {
        match self {
            YoudaoLLMLanguages::Chinese => String::from_str("zh-CHS"),
            YoudaoLLMLanguages::English => String::from_str("en"),
        }
    }
}

/// The primary language subtags that Youdao accepts, in its order.
pub open spec fn youdao_codes() -> Seq<Seq<char>> {
    seq!["zh"@, "en"@]
}

/// The configuration of the Youdao backend.
pub struct YoudaoLLMTranslator {
    pub prompt: Option<String>,
    pub api_key: String,
    pub api_secret: String,
}

impl YoudaoLLMTranslator {
    /// The primary language subtags that Youdao accepts.
    fn lang_list() -> (r: Vec<String>)
        ensures
            texts(r@) == youdao_codes(),
    {
        let mut v: Vec<String> = Vec::new();
        v.push(String::from_str("zh"));
        v.push(String::from_str("en"));
        assert(texts(v@) =~= youdao_codes());
        v
    }

    /// Whether a tag text names a language that Youdao accepts: its primary
    /// language subtag is one of the list, exactly.
    fn supports(lang: &String) -> (r: Result<bool, String>)
        ensures
            r is Ok <==> is_tag_text(lang@),
            r matches Ok(b) ==> b == youdao_codes().contains(tag_primary(lang@)),
    {
        let tag = LanguageTag::parse(lang.as_str())?;
        let primary = tag.primary_language();
        let list = YoudaoLLMTranslator::lang_list();
        let n = list.len();
        let mut i: usize = 0;
        while i < n
            invariant
                n == list@.len(),
                texts(list@) == youdao_codes(),
                i <= n,
                primary@ == tag_primary(lang@),
                is_tag_text(lang@),
                forall|j: int| 0 <= j < i ==> youdao_codes()[j] != primary@,
            decreases n - i,
        {
            assert(list@[i as int]@ == youdao_codes()[i as int]);
            if text_eq(list[i].as_str(), primary) {
                return Ok(true);
            }
            i = i + 1;
        }
        Ok(false)
    }

    /// The languages accepted as source.
    pub fn get_supported_input_languages(&self) -> (r: Result<Vec<String>, String>)
        ensures
            r matches Ok(v) && texts(v@) == youdao_codes(),
    {
        Ok(YoudaoLLMTranslator::lang_list())
    }

    /// The languages produced as target.
    pub fn get_supported_output_languages(&self) -> (r: Result<Vec<String>, String>)
        ensures
            r matches Ok(v) && texts(v@) == youdao_codes(),
    {
        Ok(YoudaoLLMTranslator::lang_list())
    }

    /// Whether the language, given as tag text, is accepted as source; fails
    /// when the text is not a language tag.
    pub fn is_supported_input_language(&self, lang: String) -> (r: Result<bool, String>)
        ensures
            r is Ok <==> is_tag_text(lang@),
            r matches Ok(b) ==> b == youdao_codes().contains(tag_primary(lang@)),
    {
        YoudaoLLMTranslator::supports(&lang)
    }

    /// Whether the language, given as tag text, is produced as target; fails
    /// when the text is not a language tag.
    pub fn is_supported_output_language(&self, lang: String) -> (r: Result<bool, String>)
        ensures
            r is Ok <==> is_tag_text(lang@),
            r matches Ok(b) ==> b == youdao_codes().contains(tag_primary(lang@)),
    {
        YoudaoLLMTranslator::supports(&lang)
    }
}

} // verus!
