use vstd::prelude::*;

use lingua::{Language, LanguageDetectorBuilder};

verus! {

/// A language that the local detector can tell apart. Only Chinese and
/// English are kept, so that the detector ships two language models.
#[derive(Debug, Clone, Copy, PartialEq, Eq, Structural)]
pub enum DetectedLanguage {
    Chinese,
    English,
}

/// Whether lingua's detector, built from the languages `candidates`, may
/// report `outcome` for `text`. This is a relation, not a function: lingua
/// sums floating-point scores in the order of a randomly seeded hash set, so
/// a near tie may come out differently from one call to the next, and a text
/// may have several possible outcomes.
pub uninterp spec fn lingua_may_report(
    candidates: Seq<DetectedLanguage>,
    text: Seq<char>,
    outcome: Option<DetectedLanguage>,
) -> bool;

/// Calls `LanguageDetectorBuilder::from_languages(..).build()` and
/// `LanguageDetector::detect_language_of` of the crate lingua. The contract
/// claims that the answer is one of the possible outcomes of detecting `text`
/// among `candidates` (which ties it to both arguments without saying what
/// the outcomes are), and that a reported language is one of the candidates:
/// the detector scores only the languages it was built from. Which language
/// it reports is left unsaid. `from_languages` panics on an empty list,
/// hence the `requires`.
#[verifier::external_body]
fn detect_language_of(candidates: &[DetectedLanguage], text: &str) -> (r: Option<DetectedLanguage>)
    requires
        candidates@.len() > 0,
    ensures
        lingua_may_report(candidates@, text@, r),
        r matches Some(l) ==> candidates@.contains(l),
{
    let languages: Vec<Language> = candidates.iter().map(|c| match c {
        DetectedLanguage::Chinese => Language::Chinese,
        DetectedLanguage::English => Language::English,
    }).collect();
    match LanguageDetectorBuilder::from_languages(&languages).build().detect_language_of(text) {
        Some(Language::Chinese) => Some(DetectedLanguage::Chinese),
        Some(Language::English) => Some(DetectedLanguage::English),
        None => None,
    }
}

/// The language code reported for a detection result: Chinese is
/// `zh_cn`; English, and text whose language is not recognised, fall back
/// to `en`.
pub open spec fn language_code_of(detected: Option<DetectedLanguage>) -> Seq<char> {
    if detected == Some(DetectedLanguage::Chinese) {
        "zh_cn"@
    } else {
        "en"@
    }
}

/// Maps a detection result to the language code the front end expects.
pub fn language_code(detected: Option<DetectedLanguage>) -> (r: &'static str)
    ensures
        r@ == language_code_of(detected),
        detected == Some(DetectedLanguage::Chinese) ==> r@ == "zh_cn"@,
        detected != Some(DetectedLanguage::Chinese) ==> r@ == "en"@,
{
    match detected {
        Some(DetectedLanguage::Chinese) => "zh_cn",
        _ => "en",
    }
}

/// The languages that translation detects among: Chinese and English only.
pub open spec fn detection_languages() -> Seq<DetectedLanguage> {
    seq![DetectedLanguage::Chinese, DetectedLanguage::English]
}

/// Detects the language of `text` among Chinese and English and returns its
/// language code (see `language_code`); it never fails.
pub fn lang_detect(text: &str) -> (r: Result<&'static str, ()>)
    ensures
        exists|d: Option<DetectedLanguage>|
            lingua_may_report(detection_languages(), text@, d) && (r matches Ok(code)
                && code@ == language_code_of(d)),
        r matches Ok(code) && (code@ == "zh_cn"@ || code@ == "en"@),
{
    let candidates = vec![DetectedLanguage::Chinese, DetectedLanguage::English];
    assert(candidates@ == detection_languages());
    let detected = detect_language_of(candidates.as_slice(), text);
    let code = language_code(detected);
    assert(lingua_may_report(detection_languages(), text@, detected));
    Ok(code)
}

/// Warms the detector up, so that the first lookup does not stall while
/// lingua loads its language models.
pub fn init_lang_detect() {
    let candidates = vec![DetectedLanguage::Chinese, DetectedLanguage::English];
    let _ = detect_language_of(candidates.as_slice(), "Hello Language");
}

/// The detected language code is always `zh_cn` or `en`, and `zh_cn`
/// exactly when the detector reports Chinese.
pub proof fn law_language_code_is_zh_cn_or_en(detected: Option<DetectedLanguage>)
    ensures
        language_code_of(detected) == "zh_cn"@ || language_code_of(detected) == "en"@,
        (language_code_of(detected) == "zh_cn"@) == (detected == Some(DetectedLanguage::Chinese)),
{
    reveal_strlit("zh_cn");
    reveal_strlit("en");
    assert("zh_cn"@.len() != "en"@.len());
}

} // verus!
