use saladict::lang_detect::{init_lang_detect, lang_detect, language_code, DetectedLanguage};

#[test]
fn chinese_text_is_zh_cn() {
    assert_eq!(lang_detect("今天天气很好，我们去公园散步吧"), Ok("zh_cn"));
}

#[test]
fn english_text_is_en() {
    assert_eq!(lang_detect("The weather is lovely today, let us take a walk"), Ok("en"));
}

#[test]
fn unrecognised_text_falls_back_to_en() {
    assert_eq!(lang_detect(""), Ok("en"));
    assert_eq!(lang_detect("12345 !!!"), Ok("en"));
}

#[test]
fn language_codes_of_detection_results() {
    assert_eq!(language_code(Some(DetectedLanguage::Chinese)), "zh_cn");
    assert_eq!(language_code(Some(DetectedLanguage::English)), "en");
    assert_eq!(language_code(None), "en");
}

#[test]
fn warm_up_then_detect() {
    init_lang_detect();
    assert_eq!(lang_detect("你好"), Ok("zh_cn"));
}
