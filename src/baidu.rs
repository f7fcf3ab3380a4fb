//! The language table of the Baidu Fanyi translation backend.

use vstd::prelude::*;
use crate::language::{LanguageTag, tag_primary, tag_region, tag_script};
use crate::text::text_eq;

verus! {

/// A language that Baidu Fanyi translates.
#[derive(Debug, Clone, Copy, PartialEq, Eq, Structural)]
pub enum BaiduFanyiLanguages {
    /// Simplified Chinese
    Chinese,
    /// English
    English,
    /// Cantonese
    Yue,
    /// Classical Chinese
    Wyw,
    /// Japanese
    Japanese,
    /// Korean
    Korean,
    /// French
    French,
    /// Spanish
    Spanish,
    /// Thai
    Thai,
    /// Arabic
    Arabic,
    /// Russian
    Russian,
    /// Portuguese
    Portuguese,
    /// German
    German,
    /// Italian
    Italian,
    /// Greek
    Greek,
    /// Dutch
    Dutch,
    /// Polish
    Polish,
    /// Bulgarian
    Bulgarian,
    /// Estonian
    Estonian,
    /// Danish
    Danish,
    /// Finnish
    Finnish,
    /// Czech
    Czech,
    /// Romanian
    Romanian,
    /// Slovenian
    Slovenian,
    /// Swedish
    Swedish,
    /// Hungarian
    Hungarian,
    /// Traditional Chinese
    TraditionalChinese,
    /// Vietnamese
    Vietnamese,
}

/// Chinese is written in traditional characters under the script `Hant` or
/// for the regions `TW`, `HK` and `MO`.
pub open spec fn is_traditional(script: Option<Seq<char>>, region: Option<Seq<char>>) -> bool {
    script == Some("Hant"@) || region == Some("TW"@) || region == Some("HK"@) || region == Some("MO"@)
}

/// The language of a primary language subtag other than `zh`.
pub open spec fn baidu_other_language_of(primary: Seq<char>) -> Option<BaiduFanyiLanguages> {
    if primary == "en"@ {
        Some(BaiduFanyiLanguages::English)
    } else if primary == "yue"@ {
        Some(BaiduFanyiLanguages::Yue)
    } else if primary == "lzh"@ {
        Some(BaiduFanyiLanguages::Wyw)
    } else if primary == "ja"@ {
        Some(BaiduFanyiLanguages::Japanese)
    } else if primary == "ko"@ {
        Some(BaiduFanyiLanguages::Korean)
    } else if primary == "fr"@ {
        Some(BaiduFanyiLanguages::French)
    } else if primary == "es"@ {
        Some(BaiduFanyiLanguages::Spanish)
    } else if primary == "th"@ {
        Some(BaiduFanyiLanguages::Thai)
    } else if primary == "ar"@ {
        Some(BaiduFanyiLanguages::Arabic)
    } else if primary == "ru"@ {
        Some(BaiduFanyiLanguages::Russian)
    } else if primary == "pt"@ {
        Some(BaiduFanyiLanguages::Portuguese)
    } else if primary == "de"@ {
        Some(BaiduFanyiLanguages::German)
    } else if primary == "it"@ {
        Some(BaiduFanyiLanguages::Italian)
    } else if primary == "el"@ {
        Some(BaiduFanyiLanguages::Greek)
    } else if primary == "nl"@ {
        Some(BaiduFanyiLanguages::Dutch)
    } else if primary == "pl"@ {
        Some(BaiduFanyiLanguages::Polish)
    } else if primary == "bg"@ {
        Some(BaiduFanyiLanguages::Bulgarian)
    } else if primary == "et"@ {
        Some(BaiduFanyiLanguages::Estonian)
    } else if primary == "da"@ {
        Some(BaiduFanyiLanguages::Danish)
    } else if primary == "fi"@ {
        Some(BaiduFanyiLanguages::Finnish)
    } else if primary == "cs"@ {
        Some(BaiduFanyiLanguages::Czech)
    } else if primary == "ro"@ {
        Some(BaiduFanyiLanguages::Romanian)
    } else if primary == "sl"@ {
        Some(BaiduFanyiLanguages::Slovenian)
    } else if primary == "sv"@ {
        Some(BaiduFanyiLanguages::Swedish)
    } else if primary == "hu"@ {
        Some(BaiduFanyiLanguages::Hungarian)
    } else if primary == "vi"@ {
        Some(BaiduFanyiLanguages::Vietnamese)
    } else {
        None
    }
}

/// The language of a tag's primary language subtag, script and region.
pub open spec fn baidu_language_of(
    primary: Seq<char>,
    script: Option<Seq<char>>,
    region: Option<Seq<char>>,
) -> Option<BaiduFanyiLanguages> {
    if primary == "zh"@ {
        if is_traditional(script, region) {
            Some(BaiduFanyiLanguages::TraditionalChinese)
        } else {
            Some(BaiduFanyiLanguages::Chinese)
        }
    } else {
        baidu_other_language_of(primary)
    }
}

/// The code under which Baidu Fanyi knows a language.
pub open spec fn baidu_language_code(v: BaiduFanyiLanguages) -> Seq<char> {
    match v {
        BaiduFanyiLanguages::Chinese => "zh"@,
        BaiduFanyiLanguages::English => "en"@,
        BaiduFanyiLanguages::Yue => "yue"@,
        BaiduFanyiLanguages::Wyw => "wyw"@,
        BaiduFanyiLanguages::Japanese => "jp"@,
        BaiduFanyiLanguages::Korean => "kor"@,
        BaiduFanyiLanguages::French => "fra"@,
        BaiduFanyiLanguages::Spanish => "spa"@,
        BaiduFanyiLanguages::Thai => "th"@,
        BaiduFanyiLanguages::Arabic => "ara"@,
        BaiduFanyiLanguages::Russian => "ru"@,
        BaiduFanyiLanguages::Portuguese => "pt"@,
        BaiduFanyiLanguages::German => "de"@,
        BaiduFanyiLanguages::Italian => "it"@,
        BaiduFanyiLanguages::Greek => "el"@,
        BaiduFanyiLanguages::Dutch => "nl"@,
        BaiduFanyiLanguages::Polish => "pl"@,
        BaiduFanyiLanguages::Bulgarian => "bul"@,
        BaiduFanyiLanguages::Estonian => "est"@,
        BaiduFanyiLanguages::Danish => "dan"@,
        BaiduFanyiLanguages::Finnish => "fin"@,
        BaiduFanyiLanguages::Czech => "cs"@,
        BaiduFanyiLanguages::Romanian => "rom"@,
        BaiduFanyiLanguages::Slovenian => "slo"@,
        BaiduFanyiLanguages::Swedish => "swe"@,
        BaiduFanyiLanguages::Hungarian => "hu"@,
        BaiduFanyiLanguages::TraditionalChinese => "cht"@,
        BaiduFanyiLanguages::Vietnamese => "vie"@,
    }
}

/// Whether an optional text is the given text.
fn opt_is(o: Option<&String>, text: &str) -> (r: bool)
    ensures
        r == (match o {
            Some(s) => Some(s@),
            None => None,
        } == Some(text@)),
{
    match o {
        Some(s) => text_eq(s.as_str(), text),
        None => false,
    }
}

impl BaiduFanyiLanguages {
    /// The language of a primary language subtag other than `zh`.
    fn from_other_primary(primary: &str) -> (r: Option<BaiduFanyiLanguages>)
        ensures
            r == baidu_other_language_of(primary@),
    {
        if text_eq(primary, "en") {
            Some(BaiduFanyiLanguages::English)
        } else if text_eq(primary, "yue") {
            Some(BaiduFanyiLanguages::Yue)
        } else if text_eq(primary, "lzh") {
            Some(BaiduFanyiLanguages::Wyw)
        } else if text_eq(primary, "ja") {
            Some(BaiduFanyiLanguages::Japanese)
        } else if text_eq(primary, "ko") {
            Some(BaiduFanyiLanguages::Korean)
        } else if text_eq(primary, "fr") {
            Some(BaiduFanyiLanguages::French)
        } else if text_eq(primary, "es") {
            Some(BaiduFanyiLanguages::Spanish)
        } else if text_eq(primary, "th") {
            Some(BaiduFanyiLanguages::Thai)
        } else if text_eq(primary, "ar") {
            Some(BaiduFanyiLanguages::Arabic)
        } else if text_eq(primary, "ru") {
            Some(BaiduFanyiLanguages::Russian)
        } else if text_eq(primary, "pt") {
            Some(BaiduFanyiLanguages::Portuguese)
        } else if text_eq(primary, "de") {
            Some(BaiduFanyiLanguages::German)
        } else if text_eq(primary, "it") {
            Some(BaiduFanyiLanguages::Italian)
        } else if text_eq(primary, "el") {
            Some(BaiduFanyiLanguages::Greek)
        } else if text_eq(primary, "nl") {
            Some(BaiduFanyiLanguages::Dutch)
        } else if text_eq(primary, "pl") {
            Some(BaiduFanyiLanguages::Polish)
        } else if text_eq(primary, "bg") {
            Some(BaiduFanyiLanguages::Bulgarian)
        } else if text_eq(primary, "et") {
            Some(BaiduFanyiLanguages::Estonian)
        } else if text_eq(primary, "da") {
            Some(BaiduFanyiLanguages::Danish)
        } else if text_eq(primary, "fi") {
            Some(BaiduFanyiLanguages::Finnish)
        } else if text_eq(primary, "cs") {
            Some(BaiduFanyiLanguages::Czech)
        } else if text_eq(primary, "ro") {
            Some(BaiduFanyiLanguages::Romanian)
        } else if text_eq(primary, "sl") {
            Some(BaiduFanyiLanguages::Slovenian)
        } else if text_eq(primary, "sv") {
            Some(BaiduFanyiLanguages::Swedish)
        } else if text_eq(primary, "hu") {
            Some(BaiduFanyiLanguages::Hungarian)
        } else if text_eq(primary, "vi") {
            Some(BaiduFanyiLanguages::Vietnamese)
        } else {
            None
        }
    }

    /// The language of a tag.
    pub fn try_from(tag: &LanguageTag) -> (r: Result<BaiduFanyiLanguages, String>)
        ensures
            match r {
                Ok(l) => baidu_language_of(tag_primary(tag@), tag_script(tag@), tag_region(tag@))
                    == Some(l),
                Err(m) => baidu_language_of(tag_primary(tag@), tag_script(tag@), tag_region(tag@))
                    is None && m@ == "Unsupported BCP47 language"@,
            },
    {
        let primary = tag.primary_language();
        if text_eq(primary, "zh") {
            let region = tag.region();
            let traditional = opt_is(tag.script(), "Hant") || opt_is(region, "TW") || opt_is(
                region,
                "HK",
            ) || opt_is(region, "MO");
            if traditional {
                return Ok(BaiduFanyiLanguages::TraditionalChinese);
            } else {
                return Ok(BaiduFanyiLanguages::Chinese);
            }
        }
        match BaiduFanyiLanguages::from_other_primary(primary) {
            Some(l) => Ok(l),
            None => Err(String::from_str("Unsupported BCP47 language")),
        }
    }

    /// The code under which Baidu Fanyi knows the language.
    pub fn to_string(&self) -> (r: String)
        ensures
            r@ == baidu_language_code(*self),
    {
        match self {
            BaiduFanyiLanguages::Chinese => String::from_str("zh"),
            BaiduFanyiLanguages::English => String::from_str("en"),
            BaiduFanyiLanguages::Yue => String::from_str("yue"),
            BaiduFanyiLanguages::Wyw => String::from_str("wyw"),
            BaiduFanyiLanguages::Japanese => String::from_str("jp"),
            BaiduFanyiLanguages::Korean => String::from_str("kor"),
            BaiduFanyiLanguages::French => String::from_str("fra"),
            BaiduFanyiLanguages::Spanish => String::from_str("spa"),
            BaiduFanyiLanguages::Thai => String::from_str("th"),
            BaiduFanyiLanguages::Arabic => String::from_str("ara"),
            BaiduFanyiLanguages::Russian => String::from_str("ru"),
            BaiduFanyiLanguages::Portuguese => String::from_str("pt"),
            BaiduFanyiLanguages::German => String::from_str("de"),
            BaiduFanyiLanguages::Italian => String::from_str("it"),
            BaiduFanyiLanguages::Greek => String::from_str("el"),
            BaiduFanyiLanguages::Dutch => String::from_str("nl"),
            BaiduFanyiLanguages::Polish => String::from_str("pl"),
            BaiduFanyiLanguages::Bulgarian => String::from_str("bul"),
            BaiduFanyiLanguages::Estonian => String::from_str("est"),
            BaiduFanyiLanguages::Danish => String::from_str("dan"),
            BaiduFanyiLanguages::Finnish => String::from_str("fin"),
            BaiduFanyiLanguages::Czech => String::from_str("cs"),
            BaiduFanyiLanguages::Romanian => String::from_str("rom"),
            BaiduFanyiLanguages::Slovenian => String::from_str("slo"),
            BaiduFanyiLanguages::Swedish => String::from_str("swe"),
            BaiduFanyiLanguages::Hungarian => String::from_str("hu"),
            BaiduFanyiLanguages::TraditionalChinese => String::from_str("cht"),
            BaiduFanyiLanguages::Vietnamese => String::from_str("vie"),
        }
    }
}

/// The configuration of the Baidu Fanyi backend.
pub struct BaiduFanyiTranslator {
    pub app_id: String,
    pub secret: String,
}

} // verus!
