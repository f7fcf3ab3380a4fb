use translator_abi::baidu::BaiduFanyiLanguages;
use translator_abi::hunyuan::{HunyuanTransLanguages, HunyuanTranslationModel, HunyuanTranslator};
use translator_abi::language::LanguageTag;
use translator_abi::openai::OpenAITranslator;
use translator_abi::qwen::{QwenMtLanguages, QwenMtModel, QwenMtTranslator};
use translator_abi::youdao::{YoudaoLLMLanguages, YoudaoLLMTranslator};
use translator_abi::baidu::BaiduFanyiTranslator;

fn tag(s: &str) -> LanguageTag {
    LanguageTag::parse(s).unwrap()
}

fn hunyuan() -> HunyuanTranslator {
    HunyuanTranslator {
        model: HunyuanTranslationModel::HunyuanTranslation,
        secret_id: "id".to_string(),
        secret_key: "test-secret".to_string(),
        region: None,
    }
}

#[test]
fn hunyuan_models_by_name() {
    assert_eq!(HunyuanTranslationModel::try_from("hunyuan-translation"), Ok(HunyuanTranslationModel::HunyuanTranslation));
    assert_eq!(
        HunyuanTranslationModel::try_from("hunyuan-translation-lite"),
        Ok(HunyuanTranslationModel::HunyuanTranslationLite)
    );
    assert_eq!(HunyuanTranslationModel::try_from("gpt"), Err("Invalid model: gpt".to_string()));
    assert_eq!(HunyuanTranslationModel::HunyuanTranslationLite.to_string(), "hunyuan-translation-lite");
}

#[test]
fn hunyuan_languages_by_primary_subtag() {
    assert_eq!(HunyuanTransLanguages::try_from(&tag("zh-CN")), Ok(HunyuanTransLanguages::Zh));
    assert_eq!(HunyuanTransLanguages::try_from(&tag("yue")), Ok(HunyuanTransLanguages::Yue));
    assert_eq!(HunyuanTransLanguages::try_from(&tag("EN-us")), Ok(HunyuanTransLanguages::En));
    assert_eq!(HunyuanTransLanguages::try_from(&tag("ms")), Ok(HunyuanTransLanguages::Ms));
    assert_eq!(HunyuanTransLanguages::try_from(&tag("nl")), Err("Unsupported language tag: nl".to_string()));
    assert_eq!(HunyuanTransLanguages::Zh.to_string(), "Zh");
    assert_eq!(HunyuanTransLanguages::from_primary("ID"), Some(HunyuanTransLanguages::Id));
}

#[test]
fn hunyuan_language_list() {
    let l = HunyuanTranslator::lang_list().unwrap();
    assert_eq!(l.len(), 17);
    assert_eq!(l[0], "zh");
    assert_eq!(l[16], "id");
    let h = hunyuan();
    assert_eq!(h.get_supported_input_languages().unwrap(), l);
    assert_eq!(h.get_supported_output_languages().unwrap(), l);
}

#[test]
fn hunyuan_support_queries() {
    let h = hunyuan();
    assert_eq!(h.is_supported_input_language("fr-CA".to_string()), Ok(true));
    assert_eq!(h.is_supported_output_language("nl".to_string()), Ok(false));
    assert!(h.is_supported_input_language("not a tag".to_string()).is_err());
}

#[test]
fn qwen_models_by_name() {
    assert_eq!(QwenMtModel::try_from("qwen-mt-turbo"), Ok(QwenMtModel::QwenMtTurbo));
    assert_eq!(QwenMtModel::try_from("qwen-mt-plus"), Ok(QwenMtModel::QwenMtPlus));
    assert!(QwenMtModel::try_from("qwen").is_err());
    assert_eq!(QwenMtModel::QwenMtPlus.to_string(), "qwen-mt-plus");
    let t = QwenMtTranslator { model: QwenMtModel::QwenMtTurbo, api_key: "test-secret".to_string() };
    assert_eq!(t.model, QwenMtModel::QwenMtTurbo);
}

#[test]
fn qwen_portuguese_only_for_brazil() {
    assert_eq!(QwenMtLanguages::try_from(&tag("pt-BR")), Ok(QwenMtLanguages::Portuguese));
    assert_eq!(QwenMtLanguages::try_from(&tag("pt-br")), Ok(QwenMtLanguages::Portuguese));
    assert!(QwenMtLanguages::try_from(&tag("pt-PT")).is_err());
    assert!(QwenMtLanguages::try_from(&tag("pt")).is_err());
}

#[test]
fn qwen_languages_by_primary_subtag() {
    assert_eq!(QwenMtLanguages::try_from(&tag("zh-Hant")), Ok(QwenMtLanguages::Chinese));
    assert_eq!(QwenMtLanguages::try_from(&tag("ceb")), Ok(QwenMtLanguages::Cebuano));
    assert_eq!(QwenMtLanguages::try_from(&tag("fil-PH")), Ok(QwenMtLanguages::Filipino));
    assert!(QwenMtLanguages::try_from(&tag("sw")).is_err());
    assert_eq!(QwenMtLanguages::Chinese.to_string(), "Chinese");
    assert_eq!(QwenMtLanguages::Urdu.to_string(), "Urdu");
}

#[test]
fn youdao_languages() {
    assert_eq!(YoudaoLLMLanguages::try_from(&tag("zh-CN")), Ok(YoudaoLLMLanguages::Chinese));
    assert_eq!(YoudaoLLMLanguages::try_from(&tag("en")), Ok(YoudaoLLMLanguages::English));
    assert!(YoudaoLLMLanguages::try_from(&tag("ja")).is_err());
    assert_eq!(YoudaoLLMLanguages::Chinese.to_string(), "zh-CHS");
    assert_eq!(YoudaoLLMLanguages::English.to_string(), "en");
}

#[test]
fn youdao_support_queries() {
    let y = YoudaoLLMTranslator { prompt: None, api_key: "k".to_string(), api_secret: "test-secret".to_string() };
    assert_eq!(y.get_supported_input_languages().unwrap(), vec!["zh".to_string(), "en".to_string()]);
    assert_eq!(y.get_supported_output_languages().unwrap(), vec!["zh".to_string(), "en".to_string()]);
    assert_eq!(y.is_supported_input_language("en-GB".to_string()), Ok(true));
    assert_eq!(y.is_supported_output_language("zh".to_string()), Ok(true));
    assert_eq!(y.is_supported_output_language("fr".to_string()), Ok(false));
    assert!(y.is_supported_input_language("@@".to_string()).is_err());
}

#[test]
fn baidu_chinese_variants() {
    assert_eq!(BaiduFanyiLanguages::try_from(&tag("zh-CN")), Ok(BaiduFanyiLanguages::Chinese));
    assert_eq!(BaiduFanyiLanguages::try_from(&tag("zh")), Ok(BaiduFanyiLanguages::Chinese));
    assert_eq!(BaiduFanyiLanguages::try_from(&tag("zh-TW")), Ok(BaiduFanyiLanguages::TraditionalChinese));
    assert_eq!(BaiduFanyiLanguages::try_from(&tag("zh-HK")), Ok(BaiduFanyiLanguages::TraditionalChinese));
    assert_eq!(BaiduFanyiLanguages::try_from(&tag("zh-MO")), Ok(BaiduFanyiLanguages::TraditionalChinese));
    assert_eq!(BaiduFanyiLanguages::try_from(&tag("zh-Hant")), Ok(BaiduFanyiLanguages::TraditionalChinese));
    assert_eq!(BaiduFanyiLanguages::try_from(&tag("zh-Hans-HK")), Ok(BaiduFanyiLanguages::TraditionalChinese));
}

#[test]
fn baidu_codes() {
    assert_eq!(BaiduFanyiLanguages::try_from(&tag("ja")), Ok(BaiduFanyiLanguages::Japanese));
    assert_eq!(BaiduFanyiLanguages::Japanese.to_string(), "jp");
    assert_eq!(BaiduFanyiLanguages::try_from(&tag("lzh")), Ok(BaiduFanyiLanguages::Wyw));
    assert_eq!(BaiduFanyiLanguages::Wyw.to_string(), "wyw");
    assert_eq!(BaiduFanyiLanguages::TraditionalChinese.to_string(), "cht");
    assert_eq!(BaiduFanyiLanguages::try_from(&tag("vi")).map(|l| l.to_string()), Ok("vie".to_string()));
    assert_eq!(BaiduFanyiLanguages::try_from(&tag("sw")), Err("Unsupported BCP47 language".to_string()));
    assert_eq!(BaiduFanyiLanguages::try_from(&tag("xx")), Err("Unsupported BCP47 language".to_string()));
    let b = BaiduFanyiTranslator { app_id: "a".to_string(), secret: "test-secret".to_string() };
    assert_eq!(b.app_id, "a");
}

#[test]
fn openai_configuration_holds_its_fields() {
    let o = OpenAITranslator {
        model: "deepseek-reasoner".to_string(),
        system_prompt: None,
        user_prompt: Some("{{ content }}".to_string()),
        api_base: "https://example.invalid/v1".to_string(),
        api_key: "test-secret".to_string(),
    };
    assert_eq!(o.model, "deepseek-reasoner");
    assert!(o.system_prompt.is_none());
}
