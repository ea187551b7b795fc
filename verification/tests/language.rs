use fl_caption::language::{
    choose_language_token, language_token_request, resolve_language_token, sense_voice_language,
    sense_voice_token_text,
    LanguageChoice, LanguageError, LanguageRequest,
};
use tokenizers::Tokenizer;

fn tokenizer() -> Tokenizer {
    let json = r#"{
        "version": "1.0",
        "truncation": null,
        "padding": null,
        "added_tokens": [],
        "normalizer": null,
        "pre_tokenizer": null,
        "post_processor": null,
        "decoder": null,
        "model": {
            "type": "WordLevel",
            "vocab": {"[UNK]": 0, "<|en|>": 50259, "<|ja|>": 50266},
            "unk_token": "[UNK]"
        }
    }"#;
    Tokenizer::from_bytes(json.as_bytes()).unwrap()
}

#[test]
fn multilingual_without_language_detects() {
    assert!(matches!(language_token_request(true, None), Ok(LanguageRequest::Detect)));
}

#[test]
fn english_only_without_language_uses_no_token() {
    assert!(matches!(language_token_request(false, None), Ok(LanguageRequest::NoToken)));
}

#[test]
fn multilingual_with_language_looks_up_its_token() {
    match language_token_request(true, Some("ja".to_string())) {
        Ok(LanguageRequest::Lookup(t)) => assert_eq!(t, "<|ja|>"),
        _ => panic!("expected a lookup"),
    }
}

#[test]
fn english_only_with_language_is_an_error() {
    assert!(matches!(
        language_token_request(false, Some("en".to_string())),
        Err(LanguageError::NotMultilingual)
    ));
}

#[test]
fn found_token_is_used() {
    assert!(matches!(resolve_language_token("de".to_string(), Some(50261)), Ok(50261)));
}

#[test]
fn missing_token_names_the_language() {
    match resolve_language_token("xx".to_string(), None) {
        Err(LanguageError::NotSupported(l)) => assert_eq!(l, "xx"),
        _ => panic!("expected an error"),
    }
}

#[test]
fn sense_voice_language_defaults_to_auto() {
    assert_eq!(sense_voice_language(None), "auto");
    assert_eq!(sense_voice_language(Some("zh".to_string())), "zh");
}

#[test]
fn language_token_is_looked_up_in_the_vocabulary() {
    let tok = tokenizer();
    assert!(matches!(
        choose_language_token(&tok, true, Some("ja".to_string())),
        Ok(LanguageChoice::Token(50266))
    ));
    assert!(matches!(
        choose_language_token(&tok, true, Some("en".to_string())),
        Ok(LanguageChoice::Token(50259))
    ));
}

#[test]
fn language_missing_from_vocabulary_is_not_supported() {
    let tok = tokenizer();
    match choose_language_token(&tok, true, Some("klingon".to_string())) {
        Err(LanguageError::NotSupported(l)) => assert_eq!(l, "klingon"),
        _ => panic!("expected an unsupported language"),
    }
}

#[test]
fn language_choice_without_lookup() {
    let tok = tokenizer();
    assert!(matches!(choose_language_token(&tok, true, None), Ok(LanguageChoice::Detect)));
    assert!(matches!(choose_language_token(&tok, false, None), Ok(LanguageChoice::NoToken)));
    assert!(matches!(
        choose_language_token(&tok, false, Some("ja".to_string())),
        Err(LanguageError::NotMultilingual)
    ));
}

#[test]
fn sense_voice_token_text_is_utf8() {
    assert_eq!(sense_voice_token_text("你好 0\nabc 1".as_bytes()).unwrap(), "你好 0\nabc 1");
    assert!(sense_voice_token_text(&[0x61, 0xff, 0x62]).is_err());
    assert_eq!(sense_voice_token_text(&[]).unwrap(), "");
}
