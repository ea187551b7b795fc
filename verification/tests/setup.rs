use fl_caption::language::{choose_language_token, LanguageChoice};
use fl_caption::mel::{MelError, MelFilterAssets};
use fl_caption::setup::{prepare_decoding, SetupError};

const CONFIG: &str = r#"{
    "num_mel_bins": 128,
    "max_source_positions": 1500,
    "d_model": 384,
    "encoder_attention_heads": 6,
    "encoder_layers": 4,
    "vocab_size": 51866,
    "max_target_positions": 448,
    "decoder_attention_heads": 6,
    "decoder_layers": 4
}"#;

const TOKENIZER: &str = r#"{
    "version": "1.0",
    "truncation": null,
    "padding": null,
    "added_tokens": [],
    "normalizer": null,
    "pre_tokenizer": null,
    "post_processor": null,
    "decoder": null,
    "model": {
        "type": "WordLevel",
        "vocab": {"[UNK]": 0, "<|fr|>": 50265},
        "unk_token": "[UNK]"
    }
}"#;

#[test]
fn setup_parses_config_and_tokenizer() {
    let setup = prepare_decoding(CONFIG, TOKENIZER.as_bytes()).unwrap();
    assert_eq!(setup.num_mel_bins(), 128);
    assert_eq!(setup.config().num_mel_bins, 128);
    assert_eq!(setup.config().decoder_layers, 4);
    assert_eq!(setup.config().d_model, 384);
    assert_eq!(setup.config().vocab_size, 51866);
    assert!(setup.config().suppress_tokens.is_empty());
    assert!(matches!(
        choose_language_token(setup.tokenizer(), true, Some("fr".to_string())),
        Ok(LanguageChoice::Token(50265))
    ));
}

#[test]
fn setup_selects_the_configured_mel_bank() {
    let setup = prepare_decoding(CONFIG, TOKENIZER.as_bytes()).unwrap();
    let assets = MelFilterAssets::new(vec![1; 64320], vec![2; 102912]).unwrap();
    assert_eq!(setup.mel_bytes(&assets).unwrap(), vec![2; 102912]);
    let other = CONFIG.replace("128", "64");
    let setup = prepare_decoding(&other, TOKENIZER.as_bytes()).unwrap();
    assert_eq!(setup.mel_bytes(&assets), Err(MelError::UnexpectedNumMelBins(64)));
}

#[test]
fn bad_config_is_reported_first() {
    assert!(matches!(prepare_decoding("{}", b"not json"), Err(SetupError::Config(_))));
    assert!(matches!(prepare_decoding("not json", TOKENIZER.as_bytes()), Err(SetupError::Config(_))));
}

#[test]
fn bad_tokenizer_is_an_error_not_a_panic() {
    assert!(matches!(prepare_decoding(CONFIG, b"not a tokenizer"), Err(SetupError::Tokenizer)));
    assert!(matches!(prepare_decoding(CONFIG, &[]), Err(SetupError::Tokenizer)));
}

#[test]
fn setup_keeps_suppressed_tokens() {
    let with_tokens = CONFIG.replace("\"decoder_layers\": 4", "\"decoder_layers\": 4, \"suppress_tokens\": [1, 2, 7]");
    let setup = prepare_decoding(&with_tokens, TOKENIZER.as_bytes()).unwrap();
    assert_eq!(setup.config().suppress_tokens, vec![1, 2, 7]);
}

#[test]
fn setup_tokenizer_comes_from_the_tokenizer_data() {
    let other = TOKENIZER.replace("50265", "7");
    let setup = prepare_decoding(CONFIG, other.as_bytes()).unwrap();
    assert!(matches!(
        choose_language_token(setup.tokenizer(), true, Some("fr".to_string())),
        Ok(LanguageChoice::Token(7))
    ));
}
