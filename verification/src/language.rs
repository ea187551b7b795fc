//! The decoding language of a session.

use tokenizers::Tokenizer;
use vstd::prelude::*;

verus! {

#[verifier::external_type_specification]
#[verifier::external_body]
pub struct ExTokenizer(Tokenizer);

/// How the decoder's language token is found.
pub enum LanguageRequest {
    /// Let a multilingual model detect the language from the audio.
    Detect,
    /// Decode without a language token (English-only models).
    NoToken,
    /// Use the token with this text, `<|language|>`.
    Lookup(String),
}

/// Errors in choosing the decoding language.
#[derive(Debug)]
pub enum LanguageError {
    /// The tokenizer has no token for this language.
    NotSupported(String),
    /// A language was given for a model that is not multilingual.
    NotMultilingual,
}

/// The text of the special token that selects a language: `<|language|>`.
pub open spec fn language_token_text(language: Seq<char>) -> Seq<char> {
    "<|"@ + language + "|>"@
}

/// The token looked up for a language is the whole language code between
/// `<|` and `|>`.
pub proof fn law_language_token_text(language: Seq<char>)
    ensures
        language_token_text(language).len() == language.len() + 4,
        language_token_text(language).subrange(2, language.len() as int + 2) == language,
        language_token_text(language)[0] == '<',
        language_token_text(language)[1] == '|',
        language_token_text(language)[language.len() as int + 2] == '|',
        language_token_text(language)[language.len() as int + 3] == '>',
{
    reveal_strlit("<|");
    reveal_strlit("|>");
    let t = language_token_text(language);
    assert(t.subrange(2, language.len() as int + 2) =~= language);
}

/// How to find the language token: a multilingual model detects the
/// language unless one is given, in which case its token is looked up; a
/// model that is not multilingual decodes without a language token and
/// accepts no language.
pub fn language_token_request(is_multilingual: bool, language: Option<String>) -> (r: Result<
    LanguageRequest,
    LanguageError,
>)
    ensures
        is_multilingual && language is None ==> r matches Ok(LanguageRequest::Detect),
        !is_multilingual && language is None ==> r matches Ok(LanguageRequest::NoToken),
        is_multilingual && language is Some ==> (r matches Ok(LanguageRequest::Lookup(t)) && t@
            == language_token_text(language->0@)),
        !is_multilingual && language is Some ==> r matches Err(LanguageError::NotMultilingual),
{
    match language {
        None => {
            if is_multilingual {
                Ok(LanguageRequest::Detect)
            } else {
                Ok(LanguageRequest::NoToken)
            }
        },
        Some(lang) => {
            if is_multilingual {
                let mut text = String::from_str("<|");
                text.append(lang.as_str());
                text.append("|>");
                Ok(LanguageRequest::Lookup(text))
            } else {
                Err(LanguageError::NotMultilingual)
            }
        },
    }
}

/// The language token from the tokenizer's answer for `language`: the token
/// when the tokenizer has one, else an error naming the language.
pub fn resolve_language_token(language: String, token: Option<u32>) -> (r: Result<
    u32,
    LanguageError,
>)
    ensures
        token matches Some(t) ==> r == Ok::<u32, LanguageError>(t),
        token is None ==> (r matches Err(LanguageError::NotSupported(l)) && l@ == language@),
{
    match token {
        Some(t) => Ok(t),
        None => Err(LanguageError::NotSupported(language)),
    }
}

/// The token table of a tokenizer: the id of each token text, the added
/// tokens taking precedence over the model's vocabulary.
pub uninterp spec fn tokenizer_vocab(tokenizer: Tokenizer) -> Map<Seq<char>, u32>;

/// The id of `token` in `vocab`, if it has one.
pub open spec fn vocab_lookup(vocab: Map<Seq<char>, u32>, token: Seq<char>) -> Option<u32> {
    if vocab.contains_key(token) {
        Some(vocab[token])
    } else {
        None
    }
}

/// `tokenizers::Tokenizer::token_to_id`: looks the text `token` up among the
/// added tokens and then in the model's vocabulary, which together make up
/// the tokenizer's token table, and returns its id, or `None` when neither
/// holds it.
#[verifier::external_body]
fn token_to_id(tokenizer: &Tokenizer, token: &str) -> (r: Option<u32>)
    ensures
        r == vocab_lookup(tokenizer_vocab(*tokenizer), token@),
{
    tokenizer.token_to_id(token)
}

/// The language token a decoder starts with.
pub enum LanguageChoice {
    /// Let a multilingual model detect the language from the audio.
    Detect,
    /// Decode without a language token.
    NoToken,
    /// Decode with this token.
    Token(u32),
}

/// The language token of a session: detection for a multilingual model
/// without a given language, no token for a model that is not
/// multilingual, and for a given language the tokenizer's token `<|language|>`,
/// or an error naming the language when the tokenizer has none. A model that
/// is not multilingual accepts no language.
pub fn choose_language_token(
    tokenizer: &Tokenizer,
    is_multilingual: bool,
    language: Option<String>,
) -> (r: Result<LanguageChoice, LanguageError>)
    ensures
        is_multilingual && language is None ==> r matches Ok(LanguageChoice::Detect),
        !is_multilingual && language is None ==> r matches Ok(LanguageChoice::NoToken),
        !is_multilingual && language is Some ==> r matches Err(LanguageError::NotMultilingual),
        is_multilingual && language is Some ==> match vocab_lookup(
            tokenizer_vocab(*tokenizer),
            language_token_text(language->0@),
        ) {
            Some(t) => r matches Ok(LanguageChoice::Token(u)) && u == t,
            None => r matches Err(LanguageError::NotSupported(l)) && l@ == language->0@,
        },
{
    let name = match &language {
        Some(l) => l.clone(),
        None => String::new(),
    };
    match language_token_request(is_multilingual, language) {
        Ok(LanguageRequest::Detect) => Ok(LanguageChoice::Detect),
        Ok(LanguageRequest::NoToken) => Ok(LanguageChoice::NoToken),
        Ok(LanguageRequest::Lookup(text)) => {
            let found = token_to_id(tokenizer, text.as_str());
            match resolve_language_token(name, found) {
                Ok(t) => Ok(LanguageChoice::Token(t)),
                Err(e) => Err(e),
            }
        },
        Err(e) => Err(e),
    }
}

#[verifier::external_type_specification]
#[verifier::external_body]
pub struct ExUtf8Error(core::str::Utf8Error);

/// `core::str::from_utf8`: the bytes as text when they are valid UTF-8,
/// else an error.
pub assume_specification[ core::str::from_utf8 ](v: &[u8]) -> (r: Result<&str, core::str::Utf8Error>)
    ensures
        r is Ok <==> vstd::utf8::valid_utf8(v@),
        r matches Ok(s) ==> s@ == vstd::utf8::decode_utf8(v@),
;

/// The text of a SenseVoice token table: the data when it is valid UTF-8,
/// else an error.
pub fn sense_voice_token_text(tokenizer_data: &[u8]) -> (r: Result<&str, core::str::Utf8Error>)
    ensures
        r is Ok <==> vstd::utf8::valid_utf8(tokenizer_data@),
        r matches Ok(s) ==> s@ == vstd::utf8::decode_utf8(tokenizer_data@),
{
    core::str::from_utf8(tokenizer_data)
}

/// The language a SenseVoice session decodes in: the given one, or
/// automatic detection.
pub fn sense_voice_language(audio_language: Option<String>) -> (r: String)
    ensures
        audio_language matches Some(l) ==> r@ == l@,
        audio_language is None ==> r@ == "auto"@,
{
    match audio_language {
        Some(l) => l,
        None => String::from_str("auto"),
    }
}

} // verus!
