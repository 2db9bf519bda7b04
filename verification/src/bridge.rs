//! The boundary-facing operations.
//!
//! Each entry point is one synchronous call: it hands the input buffers to
//! the engine, assembles the result into table-owned storage and returns the
//! flat record. Truncating and non-truncating variants differ only in the
//! truncate flag handed to the assembler; special-token variants differ only
//! in the flag forwarded to the engine. The boundary protocol has no
//! recoverable error channel, so every failure is surfaced as a
//! `BridgeError` for the caller to treat as fatal.

use vstd::prelude::*;

use crate::buffer::NativeBuffer;
use crate::engine::{
    decode_result_of, decode_utf8_text, engine_config_ok, engine_decode, engine_encode,
    engine_encode_batch, engine_from_bytes, engine_id_to_token, token_of, Engine,
};
use crate::output::{
    encoding_models, from_encoded_tokens_batch, tokenize_output_ok, views_over_token_texts,
    DecodeOutput, TokenizeOutput,
};
use crate::refs::{resolve_bytes, BufferView};
use crate::table::{DropHandle, HandleTable, OwnedModel};

verus! {

/// Why a bridge call failed. These conditions indicate caller misuse (bad
/// configuration, text that is not UTF-8, an id outside the vocabulary) or an
/// engine failure; the boundary protocol treats them as fatal for the call.
#[derive(Debug)]
pub enum BridgeError {
    /// An input buffer did not hold valid UTF-8 text.
    InvalidText,
    /// The engine reported a failure; its message is kept.
    EngineFailure(String),
    /// An id with no token in the vocabulary.
    UnknownId(u32),
}

/// Builds one engine instance from serialized configuration bytes. Succeeds
/// exactly on well-formed configurations; the caller owns the engine until it
/// hands it to `free_tokenizer`.
pub fn allocate_tokenizer(config_bytes: &NativeBuffer<u8>) -> (r: Result<Engine, BridgeError>)
    ensures
        r is Ok <==> engine_config_ok(config_bytes@),
        r matches Ok(e) ==> e.cfg_model() == config_bytes@,
        r matches Err(e) ==> e matches BridgeError::EngineFailure(_),
{
    match engine_from_bytes(config_bytes.as_slice()) {
        Ok(engine) => Ok(engine),
        Err(msg) => Err(BridgeError::EngineFailure(msg)),
    }
}

/// Frees one engine instance. Taking it by value is the release: a second
/// free of the same instance is ruled out by ownership.
pub fn free_tokenizer(tokenizer: Engine) {
    let _ = tokenizer;
}

/// Encodes one text with the given truncate flag: the shared core of the two
/// encode variants.
pub fn tokenizer_encode_core(
    table: &mut HandleTable,
    tokenizer: &Engine,
    text_buffer: &NativeBuffer<u8>,
    truncate: bool,
    add_special_tokens: bool,
) -> (r: Result<TokenizeOutput, BridgeError>)
    ensures
        (r matches Err(BridgeError::InvalidText)) <==> !vstd::utf8::valid_utf8(text_buffer@),
        r matches Err(e) ==> (e is InvalidText || e is EngineFailure),
        r is Err ==> final(table)@ == old(table)@,
        r matches Ok(out) ==> exists|m: crate::encoding::EncodingModel|
            tokenize_output_ok(final(table)@, out, m, truncate),
        old(table)@.len() <= final(table)@.len(),
        forall|j: int| 0 <= j < old(table)@.len() ==> final(table)@[j] == old(table)@[j],
{
    match decode_utf8_text(text_buffer.as_slice()) {
        None => Err(BridgeError::InvalidText),
        Some(text) => match engine_encode(tokenizer, text.as_str(), add_special_tokens) {
            Err(msg) => Err(BridgeError::EngineFailure(msg)),
            Ok(encoded) => {
                let ghost m = encoded@;
                let out = TokenizeOutput::from_encoded_tokens(table, encoded, truncate);
                proof {
                    assert(tokenize_output_ok(table@, out, m, truncate));
                }
                Ok(out)
            },
        },
    }
}

/// Encodes one text, materializing overflow data (the truncating variant).
pub fn tokenizer_encode(
    table: &mut HandleTable,
    tokenizer: &Engine,
    text_buffer: &NativeBuffer<u8>,
    add_special_tokens: bool,
) -> (r: Result<TokenizeOutput, BridgeError>)
    ensures
        (r matches Err(BridgeError::InvalidText)) <==> !vstd::utf8::valid_utf8(text_buffer@),
        r matches Err(e) ==> (e is InvalidText || e is EngineFailure),
        r is Err ==> final(table)@ == old(table)@,
        r matches Ok(out) ==> exists|m: crate::encoding::EncodingModel|
            tokenize_output_ok(final(table)@, out, m, true),
        old(table)@.len() <= final(table)@.len(),
        forall|j: int| 0 <= j < old(table)@.len() ==> final(table)@[j] == old(table)@[j],
{
    tokenizer_encode_core(table, tokenizer, text_buffer, true, add_special_tokens)
}

/// Encodes one text without materializing overflow data: the overflow view
/// comes back empty and its handle null even if the engine reported overflow.
pub fn tokenizer_encode_non_truncating(
    table: &mut HandleTable,
    tokenizer: &Engine,
    text_buffer: &NativeBuffer<u8>,
    add_special_tokens: bool,
) -> (r: Result<TokenizeOutput, BridgeError>)
    ensures
        (r matches Err(BridgeError::InvalidText)) <==> !vstd::utf8::valid_utf8(text_buffer@),
        r matches Err(e) ==> (e is InvalidText || e is EngineFailure),
        r is Err ==> final(table)@ == old(table)@,
        r matches Ok(out) ==> exists|m: crate::encoding::EncodingModel|
            tokenize_output_ok(final(table)@, out, m, false),
        r matches Ok(out) ==> out.overflowing_tokens_free_handle.spec_is_null()
            && out.overflowing_tokens@.len() == 0,
        old(table)@.len() <= final(table)@.len(),
        forall|j: int| 0 <= j < old(table)@.len() ==> final(table)@[j] == old(table)@[j],
{
    tokenizer_encode_core(table, tokenizer, text_buffer, false, add_special_tokens)
}

/// Whether every text buffer of the batch holds valid UTF-8.
pub open spec fn all_texts_valid(texts: Seq<NativeBuffer<u8>>) -> bool {
    forall|i: int| 0 <= i < texts.len() ==> vstd::utf8::valid_utf8((#[trigger] texts[i])@)
}

/// Encodes a batch of texts with the given truncate flag into the caller's
/// pre-sized output run: the shared core of the two batch variants. Output
/// slot `i` is assembled from the engine's result for slot `i`; a failure
/// populates nothing.
pub fn tokenizer_encode_batch_core(
    table: &mut HandleTable,
    tokenizer: &Engine,
    text_buffers: &Vec<NativeBuffer<u8>>,
    output_buffer: &mut Vec<TokenizeOutput>,
    truncate: bool,
    add_special_tokens: bool,
) -> (r: Result<(), BridgeError>)
    requires
        old(output_buffer)@.len() == text_buffers@.len(),
    ensures
        (r matches Err(BridgeError::InvalidText)) <==> !all_texts_valid(text_buffers@),
        r matches Err(e) ==> (e is InvalidText || e is EngineFailure),
        r is Err ==> final(table)@ == old(table)@ && final(output_buffer)@ == old(
            output_buffer,
        )@,
        r is Ok ==> final(output_buffer)@.len() == text_buffers@.len(),
        r is Ok ==> exists|ms: Seq<crate::encoding::EncodingModel>|
            #![trigger ms.len()]
            ms.len() == text_buffers@.len() && forall|i: int|
                0 <= i < ms.len() ==> tokenize_output_ok(
                    final(table)@,
                    #[trigger] final(output_buffer)@[i],
                    ms[i],
                    truncate,
                ),
        old(table)@.len() <= final(table)@.len(),
        forall|j: int| 0 <= j < old(table)@.len() ==> final(table)@[j] == old(table)@[j],
{
    let n = text_buffers.len();
    let mut texts: Vec<String> = Vec::new();
    let mut i: usize = 0;
    while i < n
        invariant
            n == text_buffers@.len(),
            0 <= i <= n,
            texts@.len() == i,
            forall|k: int| 0 <= k < i ==> vstd::utf8::valid_utf8((#[trigger] text_buffers@[k])@),
        decreases n - i,
    {
        match decode_utf8_text(text_buffers[i].as_slice()) {
            None => {
                return Err(BridgeError::InvalidText);
            },
            Some(text) => {
                texts.push(text);
            },
        }
        i += 1;
    }
    match engine_encode_batch(tokenizer, texts, add_special_tokens) {
        Err(msg) => Err(BridgeError::EngineFailure(msg)),
        Ok(encoded_batch) => {
            let ghost ms = encoding_models(encoded_batch@);
            from_encoded_tokens_batch(table, encoded_batch, output_buffer, truncate);
            proof {
                assert(ms.len() == text_buffers@.len());
                assert(forall|i: int|
                    0 <= i < ms.len() ==> tokenize_output_ok(
                        table@,
                        #[trigger] output_buffer@[i],
                        ms[i],
                        truncate,
                    ));
            }
            Ok(())
        },
    }
}

/// Encodes a batch of texts, materializing each slot's overflow data (the
/// truncating variant).
pub fn tokenizer_encode_batch(
    table: &mut HandleTable,
    tokenizer: &Engine,
    text_buffers: &Vec<NativeBuffer<u8>>,
    output_buffer: &mut Vec<TokenizeOutput>,
    add_special_tokens: bool,
) -> (r: Result<(), BridgeError>)
    requires
        old(output_buffer)@.len() == text_buffers@.len(),
    ensures
        (r matches Err(BridgeError::InvalidText)) <==> !all_texts_valid(text_buffers@),
        r matches Err(e) ==> (e is InvalidText || e is EngineFailure),
        r is Err ==> final(table)@ == old(table)@ && final(output_buffer)@ == old(
            output_buffer,
        )@,
        r is Ok ==> final(output_buffer)@.len() == text_buffers@.len(),
        r is Ok ==> exists|ms: Seq<crate::encoding::EncodingModel>|
            #![trigger ms.len()]
            ms.len() == text_buffers@.len() && forall|i: int|
                0 <= i < ms.len() ==> tokenize_output_ok(
                    final(table)@,
                    #[trigger] final(output_buffer)@[i],
                    ms[i],
                    true,
                ),
        old(table)@.len() <= final(table)@.len(),
        forall|j: int| 0 <= j < old(table)@.len() ==> final(table)@[j] == old(table)@[j],
{
    tokenizer_encode_batch_core(
        table,
        tokenizer,
        text_buffers,
        output_buffer,
        true,
        add_special_tokens,
    )
}

/// Encodes a batch of texts without materializing overflow data.
pub fn tokenizer_encode_batch_non_truncating(
    table: &mut HandleTable,
    tokenizer: &Engine,
    text_buffers: &Vec<NativeBuffer<u8>>,
    output_buffer: &mut Vec<TokenizeOutput>,
    add_special_tokens: bool,
) -> (r: Result<(), BridgeError>)
    requires
        old(output_buffer)@.len() == text_buffers@.len(),
    ensures
        (r matches Err(BridgeError::InvalidText)) <==> !all_texts_valid(text_buffers@),
        r matches Err(e) ==> (e is InvalidText || e is EngineFailure),
        r is Err ==> final(table)@ == old(table)@ && final(output_buffer)@ == old(
            output_buffer,
        )@,
        r is Ok ==> final(output_buffer)@.len() == text_buffers@.len(),
        r is Ok ==> exists|ms: Seq<crate::encoding::EncodingModel>|
            #![trigger ms.len()]
            ms.len() == text_buffers@.len() && forall|i: int|
                0 <= i < ms.len() ==> tokenize_output_ok(
                    final(table)@,
                    #[trigger] final(output_buffer)@[i],
                    ms[i],
                    false,
                ),
        old(table)@.len() <= final(table)@.len(),
        forall|j: int| 0 <= j < old(table)@.len() ==> final(table)@[j] == old(table)@[j],
{
    tokenizer_encode_batch_core(
        table,
        tokenizer,
        text_buffers,
        output_buffer,
        false,
        add_special_tokens,
    )
}

/// Decodes a run of ids with the given special-token flag: the shared core
/// of the two decode variants. Succeeds exactly when the engine's decoding of
/// these ids under this engine's configuration does, and then exposes exactly
/// that text.
pub fn tokenizer_decode_core(
    table: &mut HandleTable,
    tokenizer: &Engine,
    id_buffer: &NativeBuffer<u32>,
    skip_special_tokens: bool,
) -> (r: Result<DecodeOutput, BridgeError>)
    ensures
        r is Ok <==> decode_result_of(
            tokenizer.cfg_model(),
            id_buffer@,
            skip_special_tokens,
        ) is Some,
        r matches Err(e) ==> e matches BridgeError::EngineFailure(_),
        r is Err ==> final(table)@ == old(table)@,
        r matches Ok(out) ==> (decode_result_of(
            tokenizer.cfg_model(),
            id_buffer@,
            skip_special_tokens,
        ) matches Some(text) && {
            &&& final(table)@ == old(table)@.push(Some(OwnedModel::Text(text)))
            &&& resolve_bytes(final(table)@, out.text_buffer) == Some(text)
            &&& out.text_buffer.length == text.len()
            &&& out.free_handle.id == old(table)@.len() + 1
            &&& !out.free_handle.spec_is_null()
            &&& out.text_buffer.handle_id == out.free_handle.id
        }),
        old(table)@.len() <= final(table)@.len(),
        forall|j: int| 0 <= j < old(table)@.len() ==> final(table)@[j] == old(table)@[j],
{
    match engine_decode(tokenizer, id_buffer.as_slice(), skip_special_tokens) {
        Err(msg) => Err(BridgeError::EngineFailure(msg)),
        Ok(text) => {
            let ghost text_model = text@;
            let out = DecodeOutput::from_text(table, text);
            proof {
                assert(resolve_bytes(table@, out.text_buffer) == Some(text_model));
            }
            Ok(out)
        },
    }
}

/// Decodes a run of ids, keeping special tokens in the text.
pub fn tokenizer_decode(table: &mut HandleTable, tokenizer: &Engine, id_buffer: &NativeBuffer<
    u32,
>) -> (r: Result<DecodeOutput, BridgeError>)
    ensures
        r is Ok <==> decode_result_of(tokenizer.cfg_model(), id_buffer@, false) is Some,
        r matches Err(e) ==> e matches BridgeError::EngineFailure(_),
        r is Err ==> final(table)@ == old(table)@,
        r matches Ok(out) ==> (decode_result_of(
            tokenizer.cfg_model(),
            id_buffer@,
            false,
        ) matches Some(text) && {
            &&& final(table)@ == old(table)@.push(Some(OwnedModel::Text(text)))
            &&& resolve_bytes(final(table)@, out.text_buffer) == Some(text)
            &&& out.text_buffer.length == text.len()
            &&& out.free_handle.id == old(table)@.len() + 1
            &&& !out.free_handle.spec_is_null()
            &&& out.text_buffer.handle_id == out.free_handle.id
        }),
        old(table)@.len() <= final(table)@.len(),
        forall|j: int| 0 <= j < old(table)@.len() ==> final(table)@[j] == old(table)@[j],
{
    tokenizer_decode_core(table, tokenizer, id_buffer, false)
}

/// Decodes a run of ids, filtering special tokens out of the text.
pub fn tokenizer_decode_skip_special_tokens(
    table: &mut HandleTable,
    tokenizer: &Engine,
    id_buffer: &NativeBuffer<u32>,
) -> (r: Result<DecodeOutput, BridgeError>)
    ensures
        r is Ok <==> decode_result_of(tokenizer.cfg_model(), id_buffer@, true) is Some,
        r matches Err(e) ==> e matches BridgeError::EngineFailure(_),
        r is Err ==> final(table)@ == old(table)@,
        r matches Ok(out) ==> (decode_result_of(
            tokenizer.cfg_model(),
            id_buffer@,
            true,
        ) matches Some(text) && {
            &&& final(table)@ == old(table)@.push(Some(OwnedModel::Text(text)))
            &&& resolve_bytes(final(table)@, out.text_buffer) == Some(text)
            &&& out.text_buffer.length == text.len()
            &&& out.free_handle.id == old(table)@.len() + 1
            &&& !out.free_handle.spec_is_null()
            &&& out.text_buffer.handle_id == out.free_handle.id
        }),
        old(table)@.len() <= final(table)@.len(),
        forall|j: int| 0 <= j < old(table)@.len() ==> final(table)@[j] == old(table)@[j],
{
    tokenizer_decode_core(table, tokenizer, id_buffer, true)
}

/// The token texts a run of ids names under a configuration. An id without a
/// token contributes the empty run; callers state separately that every id
/// has one.
pub open spec fn tokens_of(cfg: Seq<u8>, ids: Seq<u32>) -> Seq<Seq<u8>> {
    Seq::new(
        ids.len(),
        |i: int|
            match token_of(cfg, ids[i]) {
                Some(b) => b,
                None => Seq::<u8>::empty(),
            },
    )
}

/// Looks up the token text of every id and fills the caller's pre-sized
/// output run with one view per token, in id order. Succeeds exactly when
/// every id has a token under this engine's configuration — in particular an
/// empty id run always succeeds — and then view `i` reads exactly the token
/// text of id `i`. All token texts of the call are owned together by the one
/// returned handle. An id outside the vocabulary fails the whole call and
/// populates nothing; the error carries such an id.
pub fn ids_to_tokens(
    table: &mut HandleTable,
    tokenizer: &Engine,
    id_buffer: &NativeBuffer<u32>,
    token_buffer: &mut Vec<BufferView>,
) -> (r: Result<DropHandle, BridgeError>)
    requires
        old(token_buffer)@.len() == id_buffer@.len(),
    ensures
        r is Ok <==> (forall|i: int|
            0 <= i < id_buffer@.len() ==> token_of(
                tokenizer.cfg_model(),
                #[trigger] id_buffer@[i],
            ) is Some),
        r matches Err(e) ==> (e matches BridgeError::UnknownId(id) && token_of(
            tokenizer.cfg_model(),
            id,
        ) is None && id_buffer@.contains(id)),
        r is Err ==> final(table)@ == old(table)@ && final(token_buffer)@ == old(token_buffer)@,
        r matches Ok(h) ==> {
            &&& h.id == old(table)@.len() + 1
            &&& !h.spec_is_null()
            &&& final(table)@ == old(table)@.push(
                Some(OwnedModel::Tokens(tokens_of(tokenizer.cfg_model(), id_buffer@))),
            )
            &&& final(token_buffer)@.len() == id_buffer@.len()
            &&& forall|i: int|
                0 <= i < id_buffer@.len() ==> resolve_bytes(
                    final(table)@,
                    #[trigger] final(token_buffer)@[i],
                ) == Some(tokens_of(tokenizer.cfg_model(), id_buffer@)[i])
                    && final(token_buffer)@[i].length == tokens_of(
                    tokenizer.cfg_model(),
                    id_buffer@,
                )[i].len() && final(token_buffer)@[i].handle_id == h.id
        },
        forall|j: int| 0 <= j < old(table)@.len() ==> final(table)@[j] == old(table)@[j],
{
    let n = id_buffer.len();
    let mut token_bytes: Vec<Vec<u8>> = Vec::new();
    let mut i: usize = 0;
    while i < n
        invariant
            n == id_buffer@.len(),
            0 <= i <= n,
            token_bytes@.len() == i,
            forall|k: int|
                0 <= k < i ==> token_of(tokenizer.cfg_model(), id_buffer@[k]) == Some(
                    (#[trigger] token_bytes@[k])@,
                ),
        decreases n - i,
    {
        let id = *id_buffer.get(i);
        match engine_id_to_token(tokenizer, id) {
            None => {
                proof {
                    assert(id_buffer@[i as int] == id);
                    assert(id_buffer@.contains(id));
                    assert(!(forall|k: int|
                        0 <= k < id_buffer@.len() ==> token_of(
                            tokenizer.cfg_model(),
                            #[trigger] id_buffer@[k],
                        ) is Some)) by {
                        assert(token_of(tokenizer.cfg_model(), id_buffer@[i as int]) is None);
                    }
                }
                return Err(BridgeError::UnknownId(id));
            },
            Some(bytes) => {
                token_bytes.push(bytes);
            },
        }
        i += 1;
    }
    proof {
        assert forall|k: int|
            0 <= k < id_buffer@.len() implies token_of(
            tokenizer.cfg_model(),
            #[trigger] id_buffer@[k],
        ) is Some by {
            assert(token_of(tokenizer.cfg_model(), id_buffer@[k]) == Some(token_bytes@[k]@));
        }
        assert(crate::encoding::bytes_model_seq(token_bytes@) =~= tokens_of(
            tokenizer.cfg_model(),
            id_buffer@,
        ));
    }
    let (views, handle) = views_over_token_texts(table, token_bytes);
    *token_buffer = views;
    Ok(handle)
}

} // verus!
