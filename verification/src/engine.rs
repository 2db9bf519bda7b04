//! The opaque tokenization engine, reached through trusted wrappers.
//!
//! The engine collaborator is the `tokenizers` crate. The bridge never looks
//! inside it: every call goes through a wrapper here that hands back plain
//! values (vectors of ids, bytes, an error message), and everything the
//! bridge then does with those values is verified. The wrappers state only
//! what the engine's own source shows of every outcome.

use vstd::prelude::*;

use crate::encoding::{EncodingData, TokenRows};

verus! {

#[verifier::external_type_specification]
#[verifier::external_body]
pub struct ExTokenizer(tokenizers::Tokenizer);

#[verifier::external_type_specification]
#[verifier::external_body]
pub struct ExEncoding(tokenizers::Encoding);

/// Whether a run of bytes is a well-formed serialized engine configuration.
/// Named, not written out: acceptance is decided by the engine's
/// deserializer, a pure function of the bytes alone.
pub uninterp spec fn engine_config_ok(bytes: Seq<u8>) -> bool;

/// What decoding a run of ids gives under a configuration: the decoded
/// text's bytes, or nothing where the engine's decoder reports a failure.
/// Named, not written out: for a tokenizer built from fixed configuration
/// bytes, decoding is a pure function of those bytes, the ids and the flag.
pub uninterp spec fn decode_result_of(cfg: Seq<u8>, ids: Seq<u32>, skip_special_tokens: bool) -> Option<Seq<u8>>;

/// The token text an id names under a configuration, if the vocabulary has
/// one. Named, not written out: the lookup is a pure function of the
/// configuration bytes and the id.
pub uninterp spec fn token_of(cfg: Seq<u8>, id: u32) -> Option<Seq<u8>>;

/// One tokenization engine instance, owned by the caller from allocation to
/// the free-engine call. It remembers, as a ghost value, the configuration
/// bytes it was built from, so that contracts can speak of what this very
/// engine decodes and looks up.
pub struct Engine {
    tok: tokenizers::Tokenizer,
    cfg: Ghost<Seq<u8>>,
}

impl Engine {
    /// The configuration bytes this engine was built from.
    pub closed spec fn cfg_model(&self) -> Seq<u8> {
        self.cfg@
    }
}

/// Relies on Tokenizer::from_bytes: it deserializes a tokenizer from
/// configuration bytes and succeeds exactly on well-formed configurations
/// (deserialization is a pure function of the bytes).
#[verifier::external_body]
fn tokenizer_from_bytes(bytes: &[u8]) -> (r: Result<tokenizers::Tokenizer, String>)
    ensures
        r is Ok <==> engine_config_ok(bytes@),
{
    match tokenizers::Tokenizer::from_bytes(bytes) {
        Ok(tok) => Ok(tok),
        Err(e) => Err(format!("{}", e)),
    }
}

/// Builds an engine and records the configuration bytes it was built from.
pub(crate) fn engine_from_bytes(bytes: &[u8]) -> (r: Result<Engine, String>)
    ensures
        r is Ok <==> engine_config_ok(bytes@),
        r matches Ok(e) ==> e.cfg_model() == bytes@,
{
    match tokenizer_from_bytes(bytes) {
        Ok(tok) => Ok(Engine { tok, cfg: Ghost(bytes@) }),
        Err(msg) => Err(msg),
    }
}

/// Relies on Encoding's accessors (get_ids, get_attention_mask,
/// get_special_tokens_mask, get_type_ids): they expose the encoding's four
/// arrays, copied here into plain vectors.
#[verifier::external_body]
fn rows_of_encoding(enc: &tokenizers::Encoding) -> (r: TokenRows)
{
    TokenRows {
        ids: enc.get_ids().to_vec(),
        attention_mask: enc.get_attention_mask().to_vec(),
        special_tokens_mask: enc.get_special_tokens_mask().to_vec(),
        type_ids: enc.get_type_ids().to_vec(),
    }
}

/// Relies on Encoding::get_overflowing: the overflow rows the engine reported
/// for one encoding, copied into plain vectors row by row.
#[verifier::external_body]
fn data_of_encoding(enc: &tokenizers::Encoding) -> (r: EncodingData)
{
    let overflowing = enc.get_overflowing().iter().map(rows_of_encoding).collect();
    EncodingData { primary: rows_of_encoding(enc), overflowing }
}

/// Relies on Tokenizer::encode_fast: it encodes one text, returning the
/// engine's encoding or the engine's error message.
#[verifier::external_body]
pub(crate) fn engine_encode(engine: &Engine, text: &str, add_special_tokens: bool) -> (r: Result<
    EncodingData,
    String,
>)
{
    match engine.tok.encode_fast(text, add_special_tokens) {
        Ok(enc) => Ok(data_of_encoding(&enc)),
        Err(e) => Err(format!("{}", e)),
    }
}

/// Relies on TokenizerImpl::encode_batch_fast: it encodes every text of the
/// batch and, on success, returns exactly one encoding per input.
#[verifier::external_body]
pub(crate) fn engine_encode_batch(engine: &Engine, texts: Vec<String>, add_special_tokens: bool) -> (r: Result<Vec<EncodingData>, String>)
    ensures
        r matches Ok(v) ==> v@.len() == texts@.len(),
{
    match engine.tok.encode_batch_fast(texts, add_special_tokens) {
        Ok(encs) => Ok(encs.iter().map(data_of_encoding).collect()),
        Err(e) => Err(format!("{}", e)),
    }
}

/// Relies on Tokenizer::decode: it looks every id's token up in the
/// vocabulary, optionally filters special tokens, and joins the texts. For a
/// tokenizer built from the engine's recorded configuration bytes the whole
/// call is a pure function of those bytes, the ids and the flag, so the
/// outcome is exactly the named `decode_result_of`.
#[verifier::external_body]
pub(crate) fn engine_decode(engine: &Engine, ids: &[u32], skip_special_tokens: bool) -> (r: Result<
    Vec<u8>,
    String,
>)
    ensures
        r matches Ok(b) ==> decode_result_of(engine.cfg_model(), ids@, skip_special_tokens)
            == Some(b@),
        r is Err ==> decode_result_of(engine.cfg_model(), ids@, skip_special_tokens) is None,
{
    match engine.tok.decode(ids, skip_special_tokens) {
        Ok(text) => Ok(text.into_bytes()),
        Err(e) => Err(format!("{}", e)),
    }
}

/// Relies on Tokenizer::id_to_token: a vocabulary lookup, a pure function of
/// the engine's recorded configuration bytes and the id, so the outcome is
/// exactly the named `token_of`.
#[verifier::external_body]
pub(crate) fn engine_id_to_token(engine: &Engine, id: u32) -> (r: Option<Vec<u8>>)
    ensures
        r matches Some(b) ==> token_of(engine.cfg_model(), id) == Some(b@),
        r is None ==> token_of(engine.cfg_model(), id) is None,
{
    engine.tok.id_to_token(id).map(String::into_bytes)
}

/// Relies on std::str::from_utf8: it succeeds exactly on valid UTF-8, and the
/// characters it returns encode back to the given bytes.
#[verifier::external_body]
pub(crate) fn decode_utf8_text(bytes: &[u8]) -> (r: Option<String>)
    ensures
        r is Some <==> vstd::utf8::valid_utf8(bytes@),
        r matches Some(s) ==> vstd::utf8::encode_utf8(s@) == bytes@,
{
    match std::str::from_utf8(bytes) {
        Ok(text) => Some(text.to_string()),
        Err(_) => None,
    }
}

} // verus!
