//! The model and language tables of the Hunyuan translation backend.

use vstd::prelude::*;
use crate::ffi::texts;
use crate::language::{LanguageTag, is_tag_text, tag_primary};
use crate::text::{eq_ignore_ascii_case, same_ignoring_ascii_case, text_eq};

verus! {

/// A Hunyuan translation model.
#[derive(Debug, Clone, Copy, PartialEq, Eq, Structural)]
pub enum HunyuanTranslationModel {
    /// `hunyuan-translation`
    HunyuanTranslation,
    /// `hunyuan-translation-lite`
    HunyuanTranslationLite,
}

/// The model that a name stands for.
pub open spec fn hunyuan_model_of(name: Seq<char>) -> Option<HunyuanTranslationModel> {
    if name == "hunyuan-translation"@ {
        Some(HunyuanTranslationModel::HunyuanTranslation)
    } else if name == "hunyuan-translation-lite"@ {
        Some(HunyuanTranslationModel::HunyuanTranslationLite)
    } else {
        None
    }
}

/// The name of a model.
pub open spec fn hunyuan_model_name(v: HunyuanTranslationModel) -> Seq<char> {
    match v {
        HunyuanTranslationModel::HunyuanTranslation => "hunyuan-translation"@,
        HunyuanTranslationModel::HunyuanTranslationLite => "hunyuan-translation-lite"@,
    }
}

impl HunyuanTranslationModel {
    /// The model of a name; fails for any other name.
    pub fn try_from(value: &str) -> (r: Result<HunyuanTranslationModel, String>)
        ensures
            match r {
                Ok(m) => hunyuan_model_of(value@) == Some(m),
                Err(_) => hunyuan_model_of(value@) is None,
            },
    {
        let found = if text_eq(value, "hunyuan-translation") {
            Some(HunyuanTranslationModel::HunyuanTranslation)
        } else if text_eq(value, "hunyuan-translation-lite") {
            Some(HunyuanTranslationModel::HunyuanTranslationLite)
        } else {
            None
        };
        match found {
            Some(m) => Ok(m),
            None => {
                let mut msg = String::from_str("Invalid model: ");
                msg.append(value);
                Err(msg)
            },
        }
    }

    /// The name of the model.
    pub fn to_string(&self) -> (r: String)
        ensures
            r@ == hunyuan_model_name(*self),
    {
        match self {
            HunyuanTranslationModel::HunyuanTranslation => String::from_str("hunyuan-translation"),
            HunyuanTranslationModel::HunyuanTranslationLite => String::from_str("hunyuan-translation-lite"),
        }
    }
}

/// A language that Hunyuan translates.
#[derive(Debug, Clone, Copy, PartialEq, Eq, Structural)]
pub enum HunyuanTransLanguages {
    /// Simplified Chinese
    Zh,
    /// Cantonese
    Yue,
    /// English
    En,
    /// French
    Fr,
    /// Portuguese
    Pt,
    /// Spanish
    Es,
    /// Japanese
    Ja,
    /// Turkish
    Tr,
    /// Russian
    Ru,
    /// Arabic
    Ar,
    /// Korean
    Ko,
    /// Thai
    Th,
    /// Italian
    It,
    /// German
    De,
    /// Vietnamese
    Vi,
    /// Malay
    Ms,
    /// Indonesian
    Id,
}

/// The language of a primary language subtag, compared without regard to ASCII case.
pub open spec fn hunyuan_language_of(primary: Seq<char>) -> Option<HunyuanTransLanguages> {
    if same_ignoring_ascii_case(primary, "zh"@) {
        Some(HunyuanTransLanguages::Zh)
    } else if same_ignoring_ascii_case(primary, "yue"@) {
        Some(HunyuanTransLanguages::Yue)
    } else if same_ignoring_ascii_case(primary, "en"@) {
        Some(HunyuanTransLanguages::En)
    } else if same_ignoring_ascii_case(primary, "fr"@) {
        Some(HunyuanTransLanguages::Fr)
    } else if same_ignoring_ascii_case(primary, "pt"@) {
        Some(HunyuanTransLanguages::Pt)
    } else if same_ignoring_ascii_case(primary, "es"@) {
        Some(HunyuanTransLanguages::Es)
    } else if same_ignoring_ascii_case(primary, "ja"@) {
        Some(HunyuanTransLanguages::Ja)
    } else if same_ignoring_ascii_case(primary, "tr"@) {
        Some(HunyuanTransLanguages::Tr)
    } else if same_ignoring_ascii_case(primary, "ru"@) {
        Some(HunyuanTransLanguages::Ru)
    } else if same_ignoring_ascii_case(primary, "ar"@) {
        Some(HunyuanTransLanguages::Ar)
    } else if same_ignoring_ascii_case(primary, "ko"@) {
        Some(HunyuanTransLanguages::Ko)
    } else if same_ignoring_ascii_case(primary, "th"@) {
        Some(HunyuanTransLanguages::Th)
    } else if same_ignoring_ascii_case(primary, "it"@) {
        Some(HunyuanTransLanguages::It)
    } else if same_ignoring_ascii_case(primary, "de"@) {
        Some(HunyuanTransLanguages::De)
    } else if same_ignoring_ascii_case(primary, "vi"@) {
        Some(HunyuanTransLanguages::Vi)
    } else if same_ignoring_ascii_case(primary, "ms"@) {
        Some(HunyuanTransLanguages::Ms)
    } else if same_ignoring_ascii_case(primary, "id"@) {
        Some(HunyuanTransLanguages::Id)
    } else {
        None
    }
}

/// The name of a language.
pub open spec fn hunyuan_language_name(v: HunyuanTransLanguages) -> Seq<char> {
    match v {
        HunyuanTransLanguages::Zh => "Zh"@,
        HunyuanTransLanguages::Yue => "Yue"@,
        HunyuanTransLanguages::En => "En"@,
        HunyuanTransLanguages::Fr => "Fr"@,
        HunyuanTransLanguages::Pt => "Pt"@,
        HunyuanTransLanguages::Es => "Es"@,
        HunyuanTransLanguages::Ja => "Ja"@,
        HunyuanTransLanguages::Tr => "Tr"@,
        HunyuanTransLanguages::Ru => "Ru"@,
        HunyuanTransLanguages::Ar => "Ar"@,
        HunyuanTransLanguages::Ko => "Ko"@,
        HunyuanTransLanguages::Th => "Th"@,
        HunyuanTransLanguages::It => "It"@,
        HunyuanTransLanguages::De => "De"@,
        HunyuanTransLanguages::Vi => "Vi"@,
        HunyuanTransLanguages::Ms => "Ms"@,
        HunyuanTransLanguages::Id => "Id"@,
    }
}

impl HunyuanTransLanguages {
    /// The language of a primary language subtag.
    pub fn from_primary(primary: &str) -> (r: Option<HunyuanTransLanguages>)
        ensures
            r == hunyuan_language_of(primary@),
    {
        if eq_ignore_ascii_case(primary, "zh") {
            Some(HunyuanTransLanguages::Zh)
        } else if eq_ignore_ascii_case(primary, "yue") {
            Some(HunyuanTransLanguages::Yue)
        } else if eq_ignore_ascii_case(primary, "en") {
            Some(HunyuanTransLanguages::En)
        } else if eq_ignore_ascii_case(primary, "fr") {
            Some(HunyuanTransLanguages::Fr)
        } else if eq_ignore_ascii_case(primary, "pt") {
            Some(HunyuanTransLanguages::Pt)
        } else if eq_ignore_ascii_case(primary, "es") {
            Some(HunyuanTransLanguages::Es)
        } else if eq_ignore_ascii_case(primary, "ja") {
            Some(HunyuanTransLanguages::Ja)
        } else if eq_ignore_ascii_case(primary, "tr") {
            Some(HunyuanTransLanguages::Tr)
        } else if eq_ignore_ascii_case(primary, "ru") {
            Some(HunyuanTransLanguages::Ru)
        } else if eq_ignore_ascii_case(primary, "ar") {
            Some(HunyuanTransLanguages::Ar)
        } else if eq_ignore_ascii_case(primary, "ko") {
            Some(HunyuanTransLanguages::Ko)
        } else if eq_ignore_ascii_case(primary, "th") {
            Some(HunyuanTransLanguages::Th)
        } else if eq_ignore_ascii_case(primary, "it") {
            Some(HunyuanTransLanguages::It)
        } else if eq_ignore_ascii_case(primary, "de") {
            Some(HunyuanTransLanguages::De)
        } else if eq_ignore_ascii_case(primary, "vi") {
            Some(HunyuanTransLanguages::Vi)
        } else if eq_ignore_ascii_case(primary, "ms") {
            Some(HunyuanTransLanguages::Ms)
        } else if eq_ignore_ascii_case(primary, "id") {
            Some(HunyuanTransLanguages::Id)
        } else {
            None
        }
    }

    /// The language of a tag, by its primary language subtag.
    pub fn try_from(tag: &LanguageTag) -> (r: Result<HunyuanTransLanguages, String>)
        ensures
            match r {
                Ok(l) => hunyuan_language_of(tag_primary(tag@)) == Some(l),
                Err(_) => hunyuan_language_of(tag_primary(tag@)) is None,
            },
    {
        match HunyuanTransLanguages::from_primary(tag.primary_language()) {
            Some(l) => Ok(l),
            None => Err(tag.unsupported_message()),
        }
    }

    /// The name of the language.
    pub fn to_string(&self) -> (r: String)
        ensures
            r@ == hunyuan_language_name(*self),
    {
        match self {
            HunyuanTransLanguages::Zh => String::from_str("Zh"),
            HunyuanTransLanguages::Yue => String::from_str("Yue"),
            HunyuanTransLanguages::En => String::from_str("En"),
            HunyuanTransLanguages::Fr => String::from_str("Fr"),
            HunyuanTransLanguages::Pt => String::from_str("Pt"),
            HunyuanTransLanguages::Es => String::from_str("Es"),
            HunyuanTransLanguages::Ja => String::from_str("Ja"),
            HunyuanTransLanguages::Tr => String::from_str("Tr"),
            HunyuanTransLanguages::Ru => String::from_str("Ru"),
            HunyuanTransLanguages::Ar => String::from_str("Ar"),
            HunyuanTransLanguages::Ko => String::from_str("Ko"),
            HunyuanTransLanguages::Th => String::from_str("Th"),
            HunyuanTransLanguages::It => String::from_str("It"),
            HunyuanTransLanguages::De => String::from_str("De"),
            HunyuanTransLanguages::Vi => String::from_str("Vi"),
            HunyuanTransLanguages::Ms => String::from_str("Ms"),
            HunyuanTransLanguages::Id => String::from_str("Id"),
        }
    }
}

/// The codes of the languages that Hunyuan translates, in its order.
pub open spec fn hunyuan_codes() -> Seq<Seq<char>> {
    seq!["zh"@, "yue"@, "en"@, "fr"@, "pt"@, "es"@, "ja"@, "tr"@, "ru"@, "ar"@, "ko"@, "th"@, "it"@, "de"@, "vi"@, "ms"@, "id"@]
}

/// The configuration of the Hunyuan backend.
pub struct HunyuanTranslator {
    pub model: HunyuanTranslationModel,
    pub secret_id: String,
    pub secret_key: String,
    pub region: Option<String>,
}

impl HunyuanTranslator {
    /// The codes of the languages that Hunyuan translates.
    pub fn lang_list() -> (r: Result<Vec<String>, String>)
        ensures
            r matches Ok(v) && texts(v@) == hunyuan_codes(),
    {
        let mut v: Vec<String> = Vec::new();
        v.push(String::from_str("zh"));
        v.push(String::from_str("yue"));
        v.push(String::from_str("en"));
        v.push(String::from_str("fr"));
        v.push(String::from_str("pt"));
        v.push(String::from_str("es"));
        v.push(String::from_str("ja"));
        v.push(String::from_str("tr"));
        v.push(String::from_str("ru"));
        v.push(String::from_str("ar"));
        v.push(String::from_str("ko"));
        v.push(String::from_str("th"));
        v.push(String::from_str("it"));
        v.push(String::from_str("de"));
        v.push(String::from_str("vi"));
        v.push(String::from_str("ms"));
        v.push(String::from_str("id"));
        assert(texts(v@) =~= hunyuan_codes());
        Ok(v)
    }

    /// The languages accepted as source.
    pub fn get_supported_input_languages(&self) -> (r: Result<Vec<String>, String>)
        ensures
            r matches Ok(v) && texts(v@) == hunyuan_codes(),
    {
        HunyuanTranslator::lang_list()
    }

    /// The languages produced as target.
    pub fn get_supported_output_languages(&self) -> (r: Result<Vec<String>, String>)
        ensures
            r matches Ok(v) && texts(v@) == hunyuan_codes(),
    {
        HunyuanTranslator::lang_list()
    }

    /// Whether the language, given as tag text, is accepted as source; fails
    /// when the text is not a language tag.
    pub fn is_supported_input_language(&self, lang: String) -> (r: Result<bool, String>)
        ensures
            r is Ok <==> is_tag_text(lang@),
            r matches Ok(b) ==> b == hunyuan_language_of(tag_primary(lang@)) is Some,
    {
        let tag = LanguageTag::parse(lang.as_str())?;
        Ok(HunyuanTransLanguages::try_from(&tag).is_ok())
    }

    /// Whether the language, given as tag text, is produced as target; fails
    /// when the text is not a language tag.
    pub fn is_supported_output_language(&self, lang: String) -> (r: Result<bool, String>)
        ensures
            r is Ok <==> is_tag_text(lang@),
            r matches Ok(b) ==> b == hunyuan_language_of(tag_primary(lang@)) is Some,
    {
        let tag = LanguageTag::parse(lang.as_str())?;
        Ok(HunyuanTransLanguages::try_from(&tag).is_ok())
    }
}

} // verus!
