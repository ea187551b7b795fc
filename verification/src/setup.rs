//! Setting up a Whisper decoder from its raw configuration and tokenizer.

use candle_transformers::models::whisper::Config;
use tokenizers::Tokenizer;
use vstd::prelude::*;

use crate::language::tokenizer_vocab;
use crate::mel::{bank_bytes, get_mel_bytes, mel_bank, MelError, MelFilterAssets};

verus! {

#[verifier::external_type_specification]
#[verifier::external_body]
pub struct ExJsonError(serde_json::Error);

/// The hyperparameters of a Whisper model.
pub struct WhisperConfig {
    pub num_mel_bins: usize,
    pub max_source_positions: usize,
    pub d_model: usize,
    pub encoder_attention_heads: usize,
    pub encoder_layers: usize,
    pub vocab_size: usize,
    pub max_target_positions: usize,
    pub decoder_attention_heads: usize,
    pub decoder_layers: usize,
    pub suppress_tokens: Vec<u32>,
}

/// The abstract value of a [`WhisperConfig`].
pub struct WhisperConfigModel {
    pub num_mel_bins: usize,
    pub max_source_positions: usize,
    pub d_model: usize,
    pub encoder_attention_heads: usize,
    pub encoder_layers: usize,
    pub vocab_size: usize,
    pub max_target_positions: usize,
    pub decoder_attention_heads: usize,
    pub decoder_layers: usize,
    pub suppress_tokens: Seq<u32>,
}

impl View for WhisperConfig {
    type V = WhisperConfigModel;

    open spec fn view(&self) -> WhisperConfigModel {
        WhisperConfigModel {
            num_mel_bins: self.num_mel_bins,
            max_source_positions: self.max_source_positions,
            d_model: self.d_model,
            encoder_attention_heads: self.encoder_attention_heads,
            encoder_layers: self.encoder_layers,
            vocab_size: self.vocab_size,
            max_target_positions: self.max_target_positions,
            decoder_attention_heads: self.decoder_attention_heads,
            decoder_layers: self.decoder_layers,
            suppress_tokens: self.suppress_tokens@,
        }
    }
}

/// The configuration a JSON text describes, or `None` when the text is not
/// a Whisper model configuration.
pub uninterp spec fn spec_whisper_config(data: Seq<char>) -> Option<WhisperConfigModel>;

/// The token table of the tokenizer serialized in `data`, or `None` when
/// `data` is not a serialized tokenizer.
pub uninterp spec fn spec_tokenizer_table(data: Seq<u8>) -> Option<Map<Seq<char>, u32>>;

/// `serde_json::from_str` into candle's Whisper `Config`, whose fields are
/// moved into a [`WhisperConfig`]; or the JSON error.
#[verifier::external_body]
fn parse_whisper_config(data: &str) -> (r: Result<WhisperConfig, serde_json::Error>)
    ensures
        match r {
            Ok(c) => spec_whisper_config(data@) == Some(c@),
            Err(_) => spec_whisper_config(data@) is None,
        },
{
    match serde_json::from_str::<Config>(data) {
        Ok(c) => Ok(WhisperConfig {
            num_mel_bins: c.num_mel_bins, max_source_positions: c.max_source_positions,
            d_model: c.d_model, encoder_attention_heads: c.encoder_attention_heads,
            encoder_layers: c.encoder_layers, vocab_size: c.vocab_size,
            max_target_positions: c.max_target_positions,
            decoder_attention_heads: c.decoder_attention_heads, decoder_layers: c.decoder_layers,
            suppress_tokens: c.suppress_tokens,
        }),
        Err(e) => Err(e),
    }
}

/// `tokenizers::Tokenizer::from_bytes`: the tokenizer serialized in `data`,
/// whose token table is the one `data` describes, or `None` when `data` is
/// not a serialized tokenizer.
#[verifier::external_body]
fn parse_tokenizer(data: &[u8]) -> (r: Option<Tokenizer>)
    ensures
        r is Some <==> spec_tokenizer_table(data@) is Some,
        r matches Some(t) ==> spec_tokenizer_table(data@) == Some(tokenizer_vocab(t)),
{
    Tokenizer::from_bytes(data).ok()
}

/// Errors in setting up a decoder.
#[derive(Debug)]
pub enum SetupError {
    /// The model configuration is not valid JSON for a Whisper model.
    Config(serde_json::Error),
    /// The tokenizer data is not a serialized tokenizer.
    Tokenizer,
}

/// A parsed model configuration and tokenizer.
pub struct DecodingSetup {
    config: WhisperConfig,
    tokenizer: Tokenizer,
}

impl DecodingSetup {
    /// The number of mel bins the configuration declares.
    pub closed spec fn spec_num_mel_bins(&self) -> usize {
        self.config.num_mel_bins
    }

    /// The parsed tokenizer.
    pub closed spec fn spec_tokenizer(&self) -> Tokenizer {
        self.tokenizer
    }

    /// The parsed configuration.
    pub closed spec fn spec_config(&self) -> WhisperConfigModel {
        self.config@
    }

    /// The number of mel bins the configuration declares.
    pub fn num_mel_bins(&self) -> (r: usize)
        ensures
            r == self.spec_num_mel_bins(),
    {
        self.config.num_mel_bins
    }

    /// The parsed tokenizer.
    pub fn tokenizer(&self) -> (r: &Tokenizer)
        ensures
            *r == self.spec_tokenizer(),
    {
        &self.tokenizer
    }

    /// The parsed configuration.
    pub fn config(&self) -> (r: &WhisperConfig)
        ensures
            r@ == self.spec_config(),
    {
        &self.config
    }

    /// The mel filter bank for the configured number of mel bins.
    pub fn mel_bytes(&self, assets: &MelFilterAssets) -> (r: Result<Vec<u8>, MelError>)
        ensures
            match mel_bank(*assets, self.spec_num_mel_bins()) {
                Some(bank) => r matches Ok(v) && v@ == bank && v@.len() == bank_bytes(
                    self.spec_num_mel_bins() as int,
                ),
                None => r == Err::<Vec<u8>, MelError>(
                    MelError::UnexpectedNumMelBins(self.spec_num_mel_bins()),
                ),
            },
    {
        get_mel_bytes(self.config.num_mel_bins, assets)
    }
}

/// Parses the model configuration and then the tokenizer: an error for the
/// first that does not parse, else both: the configuration the text
/// describes, and a tokenizer with the token table the data describes.
pub fn prepare_decoding(config_data: &str, tokenizer_data: &[u8]) -> (r: Result<
    DecodingSetup,
    SetupError,
>)
    ensures
        spec_whisper_config(config_data@) is None <==> r matches Err(SetupError::Config(_)),
        (spec_whisper_config(config_data@) is Some && spec_tokenizer_table(tokenizer_data@) is None)
            <==> r matches Err(SetupError::Tokenizer),
        r matches Ok(s) ==> spec_whisper_config(config_data@) == Some(s.spec_config())
            && spec_tokenizer_table(tokenizer_data@) == Some(tokenizer_vocab(s.spec_tokenizer()))
            && s.spec_num_mel_bins() == s.spec_config().num_mel_bins,
{
    let config = match parse_whisper_config(config_data) {
        Ok(c) => c,
        Err(e) => {
            return Err(SetupError::Config(e));
        },
    };
    let tokenizer = match parse_tokenizer(tokenizer_data) {
        Some(t) => t,
        None => {
            return Err(SetupError::Tokenizer);
        },
    };
    Ok(DecodingSetup { config, tokenizer })
}

} // verus!
