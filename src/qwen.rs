//! The model and language tables of the Qwen machine translation backend.

use vstd::prelude::*;
use crate::language::{LanguageTag, tag_primary, tag_region};
use crate::text::{eq_ignore_ascii_case, same_ignoring_ascii_case, text_eq};

verus! {

/// A Qwen machine translation model.
#[derive(Debug, Clone, Copy, PartialEq, Eq, Structural)]
pub enum QwenMtModel {
    /// `qwen-mt-plus`
    QwenMtPlus,
    /// `qwen-mt-turbo`
    QwenMtTurbo,
}

/// The model that a name stands for.
pub open spec fn qwen_model_of(name: Seq<char>) -> Option<QwenMtModel> {
    if name == "qwen-mt-plus"@ {
        Some(QwenMtModel::QwenMtPlus)
    } else if name == "qwen-mt-turbo"@ {
        Some(QwenMtModel::QwenMtTurbo)
    } else {
        None
    }
}

/// The name of a model.
pub open spec fn qwen_model_name(v: QwenMtModel) -> Seq<char> {
    match v {
        QwenMtModel::QwenMtPlus => "qwen-mt-plus"@,
        QwenMtModel::QwenMtTurbo => "qwen-mt-turbo"@,
    }
}

impl QwenMtModel {
    /// The model of a name; fails for any other name.
    pub fn try_from(value: &str) -> (r: Result<QwenMtModel, String>)
        ensures
            match r {
                Ok(m) => qwen_model_of(value@) == Some(m),
                Err(_) => qwen_model_of(value@) is None,
            },
    {
        let found = if text_eq(value, "qwen-mt-plus") {
            Some(QwenMtModel::QwenMtPlus)
        } else if text_eq(value, "qwen-mt-turbo") {
            Some(QwenMtModel::QwenMtTurbo)
        } else {
            None
        };
        match found {
            Some(m) => Ok(m),
            None => {
                let mut msg = String::from_str("Invalid model: ");
                msg.append(value);
                Err(msg)
            },
        }
    }

    /// The name of the model.
    pub fn to_string(&self) -> (r: String)
        ensures
            r@ == qwen_model_name(*self),
    {
        match self {
            QwenMtModel::QwenMtPlus => String::from_str("qwen-mt-plus"),
            QwenMtModel::QwenMtTurbo => String::from_str("qwen-mt-turbo"),
        }
    }
}

/// A language that Qwen translates.
#[derive(Debug, Clone, Copy, PartialEq, Eq, Structural)]
pub enum QwenMtLanguages {
    /// Chinese
    Chinese,
    /// English
    English,
    /// Japanese
    Japanese,
    /// Korean
    Korean,
    /// Thai
    Thai,
    /// French
    French,
    /// German
    German,
    /// Spanish
    Spanish,
    /// Arabic
    Arabic,
    /// Indonesian
    Indonesian,
    /// Vietnamese
    Vietnamese,
    /// Brazilian Portuguese
    Portuguese,
    /// Italian
    Italian,
    /// Dutch
    Dutch,
    /// Russian
    Russian,
    /// Khmer
    Khmer,
    /// Cebuano
    Cebuano,
    /// Filipino
    Filipino,
    /// Czech
    Czech,
    /// Polish
    Polish,
    /// Persian
    Persian,
    /// Hebrew
    Hebrew,
    /// Turkish
    Turkish,
    /// Hindi
    Hindi,
    /// Bengali
    Bengali,
    /// Urdu
    Urdu,
}

/// Portuguese is offered as spoken in Brazil only: the region must be `BR`,
/// compared without regard to ASCII case.
pub open spec fn is_brazil(region: Option<Seq<char>>) -> bool {
    region matches Some(r) && same_ignoring_ascii_case(r, "BR"@)
}

/// The language of a tag's primary language subtag and region, compared without regard to ASCII case.
pub open spec fn qwen_language_of(primary: Seq<char>, region: Option<Seq<char>>) -> Option<QwenMtLanguages> {
    if same_ignoring_ascii_case(primary, "zh"@) {
        Some(QwenMtLanguages::Chinese)
    } else if same_ignoring_ascii_case(primary, "en"@) {
        Some(QwenMtLanguages::English)
    } else if same_ignoring_ascii_case(primary, "ja"@) {
        Some(QwenMtLanguages::Japanese)
    } else if same_ignoring_ascii_case(primary, "ko"@) {
        Some(QwenMtLanguages::Korean)
    } else if same_ignoring_ascii_case(primary, "th"@) {
        Some(QwenMtLanguages::Thai)
    } else if same_ignoring_ascii_case(primary, "fr"@) {
        Some(QwenMtLanguages::French)
    } else if same_ignoring_ascii_case(primary, "de"@) {
        Some(QwenMtLanguages::German)
    } else if same_ignoring_ascii_case(primary, "es"@) {
        Some(QwenMtLanguages::Spanish)
    } else if same_ignoring_ascii_case(primary, "ar"@) {
        Some(QwenMtLanguages::Arabic)
    } else if same_ignoring_ascii_case(primary, "id"@) {
        Some(QwenMtLanguages::Indonesian)
    } else if same_ignoring_ascii_case(primary, "vi"@) {
        Some(QwenMtLanguages::Vietnamese)
    } else if same_ignoring_ascii_case(primary, "pt"@) {
        if is_brazil(region) {
            Some(QwenMtLanguages::Portuguese)
        } else {
            None
        }
    } else if same_ignoring_ascii_case(primary, "it"@) {
        Some(QwenMtLanguages::Italian)
    } else if same_ignoring_ascii_case(primary, "nl"@) {
        Some(QwenMtLanguages::Dutch)
    } else if same_ignoring_ascii_case(primary, "ru"@) {
        Some(QwenMtLanguages::Russian)
    } else if same_ignoring_ascii_case(primary, "km"@) {
        Some(QwenMtLanguages::Khmer)
    } else if same_ignoring_ascii_case(primary, "ceb"@) {
        Some(QwenMtLanguages::Cebuano)
    } else if same_ignoring_ascii_case(primary, "fil"@) {
        Some(QwenMtLanguages::Filipino)
    } else if same_ignoring_ascii_case(primary, "cs"@) {
        Some(QwenMtLanguages::Czech)
    } else if same_ignoring_ascii_case(primary, "pl"@) {
        Some(QwenMtLanguages::Polish)
    } else if same_ignoring_ascii_case(primary, "fa"@) {
        Some(QwenMtLanguages::Persian)
    } else if same_ignoring_ascii_case(primary, "he"@) {
        Some(QwenMtLanguages::Hebrew)
    } else if same_ignoring_ascii_case(primary, "tr"@) {
        Some(QwenMtLanguages::Turkish)
    } else if same_ignoring_ascii_case(primary, "hi"@) {
        Some(QwenMtLanguages::Hindi)
    } else if same_ignoring_ascii_case(primary, "bn"@) {
        Some(QwenMtLanguages::Bengali)
    } else if same_ignoring_ascii_case(primary, "ur"@) {
        Some(QwenMtLanguages::Urdu)
    } else {
        None
    }
}

/// The name of a language.
pub open spec fn qwen_language_name(v: QwenMtLanguages) -> Seq<char> {
    match v {
        QwenMtLanguages::Chinese => "Chinese"@,
        QwenMtLanguages::English => "English"@,
        QwenMtLanguages::Japanese => "Japanese"@,
        QwenMtLanguages::Korean => "Korean"@,
        QwenMtLanguages::Thai => "Thai"@,
        QwenMtLanguages::French => "French"@,
        QwenMtLanguages::German => "German"@,
        QwenMtLanguages::Spanish => "Spanish"@,
        QwenMtLanguages::Arabic => "Arabic"@,
        QwenMtLanguages::Indonesian => "Indonesian"@,
        QwenMtLanguages::Vietnamese => "Vietnamese"@,
        QwenMtLanguages::Portuguese => "Portuguese"@,
        QwenMtLanguages::Italian => "Italian"@,
        QwenMtLanguages::Dutch => "Dutch"@,
        QwenMtLanguages::Russian => "Russian"@,
        QwenMtLanguages::Khmer => "Khmer"@,
        QwenMtLanguages::Cebuano => "Cebuano"@,
        QwenMtLanguages::Filipino => "Filipino"@,
        QwenMtLanguages::Czech => "Czech"@,
        QwenMtLanguages::Polish => "Polish"@,
        QwenMtLanguages::Persian => "Persian"@,
        QwenMtLanguages::Hebrew => "Hebrew"@,
        QwenMtLanguages::Turkish => "Turkish"@,
        QwenMtLanguages::Hindi => "Hindi"@,
        QwenMtLanguages::Bengali => "Bengali"@,
        QwenMtLanguages::Urdu => "Urdu"@,
    }
}

impl QwenMtLanguages {
    /// The language of a primary language subtag and region.
    pub fn from_parts(primary: &str, region: Option<&String>) -> (r: Option<QwenMtLanguages>)
        ensures
            r == qwen_language_of(
                primary@,
                match region {
                    Some(s) => Some(s@),
                    None => None,
                },
            ),
    {
        if eq_ignore_ascii_case(primary, "zh") {
            Some(QwenMtLanguages::Chinese)
        } else if eq_ignore_ascii_case(primary, "en") {
            Some(QwenMtLanguages::English)
        } else if eq_ignore_ascii_case(primary, "ja") {
            Some(QwenMtLanguages::Japanese)
        } else if eq_ignore_ascii_case(primary, "ko") {
            Some(QwenMtLanguages::Korean)
        } else if eq_ignore_ascii_case(primary, "th") {
            Some(QwenMtLanguages::Thai)
        } else if eq_ignore_ascii_case(primary, "fr") {
            Some(QwenMtLanguages::French)
        } else if eq_ignore_ascii_case(primary, "de") {
            Some(QwenMtLanguages::German)
        } else if eq_ignore_ascii_case(primary, "es") {
            Some(QwenMtLanguages::Spanish)
        } else if eq_ignore_ascii_case(primary, "ar") {
            Some(QwenMtLanguages::Arabic)
        } else if eq_ignore_ascii_case(primary, "id") {
            Some(QwenMtLanguages::Indonesian)
        } else if eq_ignore_ascii_case(primary, "vi") {
            Some(QwenMtLanguages::Vietnamese)
        } else if eq_ignore_ascii_case(primary, "pt") {
            let brazil = match region {
                Some(r) => eq_ignore_ascii_case(r.as_str(), "BR"),
                None => false,
            };
            if brazil {
                Some(QwenMtLanguages::Portuguese)
            } else {
                None
            }
        } else if eq_ignore_ascii_case(primary, "it") {
            Some(QwenMtLanguages::Italian)
        } else if eq_ignore_ascii_case(primary, "nl") {
            Some(QwenMtLanguages::Dutch)
        } else if eq_ignore_ascii_case(primary, "ru") {
            Some(QwenMtLanguages::Russian)
        } else if eq_ignore_ascii_case(primary, "km") {
            Some(QwenMtLanguages::Khmer)
        } else if eq_ignore_ascii_case(primary, "ceb") {
            Some(QwenMtLanguages::Cebuano)
        } else if eq_ignore_ascii_case(primary, "fil") {
            Some(QwenMtLanguages::Filipino)
        } else if eq_ignore_ascii_case(primary, "cs") {
            Some(QwenMtLanguages::Czech)
        } else if eq_ignore_ascii_case(primary, "pl") {
            Some(QwenMtLanguages::Polish)
        } else if eq_ignore_ascii_case(primary, "fa") {
            Some(QwenMtLanguages::Persian)
        } else if eq_ignore_ascii_case(primary, "he") {
            Some(QwenMtLanguages::Hebrew)
        } else if eq_ignore_ascii_case(primary, "tr") {
            Some(QwenMtLanguages::Turkish)
        } else if eq_ignore_ascii_case(primary, "hi") {
            Some(QwenMtLanguages::Hindi)
        } else if eq_ignore_ascii_case(primary, "bn") {
            Some(QwenMtLanguages::Bengali)
        } else if eq_ignore_ascii_case(primary, "ur") {
            Some(QwenMtLanguages::Urdu)
        } else {
            None
        }
    }

    /// The language of a tag.
    pub fn try_from(tag: &LanguageTag) -> (r: Result<QwenMtLanguages, String>)
        ensures
            match r {
                Ok(l) => qwen_language_of(tag_primary(tag@), tag_region(tag@)) == Some(l),
                Err(_) => qwen_language_of(tag_primary(tag@), tag_region(tag@)) is None,
            },
    {
        match QwenMtLanguages::from_parts(tag.primary_language(), tag.region()) {
            Some(l) => Ok(l),
            None => Err(tag.unsupported_message()),
        }
    }

    /// The name of the language.
    pub fn to_string(&self) -> (r: String)
        ensures
            r@ == qwen_language_name(*self),
    {
        match self {
            QwenMtLanguages::Chinese => String::from_str("Chinese"),
            QwenMtLanguages::English => String::from_str("English"),
            QwenMtLanguages::Japanese => String::from_str("Japanese"),
            QwenMtLanguages::Korean => String::from_str("Korean"),
            QwenMtLanguages::Thai => String::from_str("Thai"),
            QwenMtLanguages::French => String::from_str("French"),
            QwenMtLanguages::German => String::from_str("German"),
            QwenMtLanguages::Spanish => String::from_str("Spanish"),
            QwenMtLanguages::Arabic => String::from_str("Arabic"),
            QwenMtLanguages::Indonesian => String::from_str("Indonesian"),
            QwenMtLanguages::Vietnamese => String::from_str("Vietnamese"),
            QwenMtLanguages::Portuguese => String::from_str("Portuguese"),
            QwenMtLanguages::Italian => String::from_str("Italian"),
            QwenMtLanguages::Dutch => String::from_str("Dutch"),
            QwenMtLanguages::Russian => String::from_str("Russian"),
            QwenMtLanguages::Khmer => String::from_str("Khmer"),
            QwenMtLanguages::Cebuano => String::from_str("Cebuano"),
            QwenMtLanguages::Filipino => String::from_str("Filipino"),
            QwenMtLanguages::Czech => String::from_str("Czech"),
            QwenMtLanguages::Polish => String::from_str("Polish"),
            QwenMtLanguages::Persian => String::from_str("Persian"),
            QwenMtLanguages::Hebrew => String::from_str("Hebrew"),
            QwenMtLanguages::Turkish => String::from_str("Turkish"),
            QwenMtLanguages::Hindi => String::from_str("Hindi"),
            QwenMtLanguages::Bengali => String::from_str("Bengali"),
            QwenMtLanguages::Urdu => String::from_str("Urdu"),
        }
    }
}

/// The configuration of the Qwen backend.
pub struct QwenMtTranslator {
    pub model: QwenMtModel,
    pub api_key: String,
}

} // verus!
