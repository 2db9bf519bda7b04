//! Scenario tests running the bridge against a real tokenization engine
//! built from a small word-level vocabulary.

use tokenizer_bridge::bridge::{
    allocate_tokenizer, free_tokenizer, ids_to_tokens, tokenizer_decode,
    tokenizer_decode_skip_special_tokens, tokenizer_encode, tokenizer_encode_batch,
    tokenizer_encode_batch_non_truncating, tokenizer_encode_non_truncating, BridgeError,
};
use tokenizer_bridge::refs::{read_byte_view, read_u32_view, BufferView};
use tokenizer_bridge::table::{free_with_handle, HandleTable};
use tokenizer_bridge::{Engine, NativeBuffer, TokenizeOutput};

/// A word-level engine configuration over the vocabulary
/// {"hello": 0, "world": 1, "[UNK]": 2}, with whitespace pre-tokenization.
fn engine_config() -> Vec<u8> {
    b"{\"version\":\"1.0\",\"truncation\":null,\"padding\":null,\"added_tokens\":[],\
\"normalizer\":null,\"pre_tokenizer\":{\"type\":\"Whitespace\"},\
\"post_processor\":null,\"decoder\":null,\"model\":{\"type\":\"WordLevel\",\
\"vocab\":{\"hello\":0,\"world\":1,\"[UNK]\":2},\"unk_token\":\"[UNK]\"}}"
        .to_vec()
}

fn engine() -> Engine {
    allocate_tokenizer(&NativeBuffer::from_vec(&engine_config())).unwrap()
}

#[test]
fn malformed_configuration_is_rejected() {
    let result = allocate_tokenizer(&NativeBuffer::from_slice(b"not a configuration"));
    assert!(matches!(result, Err(BridgeError::EngineFailure(_))));
}

#[test]
fn encode_hello_world_yields_the_vocabulary_ids() {
    let engine = engine();
    let mut table = HandleTable::new();
    let out = tokenizer_encode(
        &mut table,
        &engine,
        &NativeBuffer::from_slice(b"hello world"),
        false,
    )
    .unwrap();

    assert_eq!(read_u32_view(&table, &out.ids), vec![0, 1]);
    assert_eq!(read_u32_view(&table, &out.attention_mask), vec![1, 1]);
    assert_eq!(out.ids.length, 2);

    let decoded = tokenizer_decode(
        &mut table,
        &engine,
        &NativeBuffer::from_slice(&[0u32, 1]),
    )
    .unwrap();
    assert_eq!(read_byte_view(&table, &decoded.text_buffer), b"hello world".to_vec());

    free_with_handle(&mut table, decoded.free_handle);
    free_with_handle(&mut table, out.overflowing_tokens_free_handle);
    free_with_handle(&mut table, out.original_output_free_handle);
    free_tokenizer(engine);
}

#[test]
fn encoding_then_decoding_reproduces_vocabulary_text() {
    let engine = engine();
    let mut table = HandleTable::new();
    let text = b"world hello world";
    let out = tokenizer_encode(&mut table, &engine, &NativeBuffer::from_slice(text), false)
        .unwrap();
    let ids = read_u32_view(&table, &out.ids);

    let decoded = tokenizer_decode_skip_special_tokens(
        &mut table,
        &engine,
        &NativeBuffer::from_vec(&ids),
    )
    .unwrap();
    assert_eq!(read_byte_view(&table, &decoded.text_buffer), text.to_vec());

    free_with_handle(&mut table, decoded.free_handle);
    free_with_handle(&mut table, out.original_output_free_handle);
    free_tokenizer(engine);
}

#[test]
fn pre_release_reads_are_stable_and_repeatable() {
    let engine = engine();
    let mut table = HandleTable::new();
    let out = tokenizer_encode(
        &mut table,
        &engine,
        &NativeBuffer::from_slice(b"hello world"),
        false,
    )
    .unwrap();

    let first = read_u32_view(&table, &out.ids);
    let second = read_u32_view(&table, &out.ids);
    assert_eq!(first, second);

    // An unrelated allocation and its release leave the read untouched.
    let decoded = tokenizer_decode(&mut table, &engine, &NativeBuffer::from_vec(&first))
        .unwrap();
    assert_eq!(read_u32_view(&table, &out.ids), first);
    free_with_handle(&mut table, decoded.free_handle);
    assert_eq!(read_u32_view(&table, &out.ids), first);

    free_with_handle(&mut table, out.original_output_free_handle);
    free_tokenizer(engine);
}

#[test]
fn batch_slots_correspond_to_inputs_in_order() {
    let engine = engine();
    let mut table = HandleTable::new();
    let inputs = vec![
        NativeBuffer::from_slice(b"hello world"),
        NativeBuffer::from_slice(b"unknown word"),
    ];
    let mut outputs: Vec<TokenizeOutput> = Vec::new();
    outputs.push(empty_output());
    outputs.push(empty_output());

    tokenizer_encode_batch(&mut table, &engine, &inputs, &mut outputs, false).unwrap();

    assert_eq!(read_u32_view(&table, &outputs[0].ids), vec![0, 1]);
    let unknown_ids = read_u32_view(&table, &outputs[1].ids);
    assert!(unknown_ids.contains(&2));

    for out in &outputs {
        free_with_handle(&mut table, out.overflowing_tokens_free_handle);
        free_with_handle(&mut table, out.original_output_free_handle);
    }
    free_tokenizer(engine);
}

#[test]
fn an_empty_batch_is_a_valid_noop() {
    let engine = engine();
    let mut table = HandleTable::new();
    let inputs: Vec<NativeBuffer<u8>> = Vec::new();
    let mut outputs: Vec<TokenizeOutput> = Vec::new();
    tokenizer_encode_batch_non_truncating(&mut table, &engine, &inputs, &mut outputs, false)
        .unwrap();
    assert_eq!(outputs.len(), 0);
    assert_eq!(table.slot_count(), 0);
    free_tokenizer(engine);
}

#[test]
fn overflow_is_materialized_only_for_the_truncating_variant() {
    // A subword vocabulary, so that one word carries three tokens and the
    // truncation length of two really cuts one off.
    let config = b"{\"version\":\"1.0\",\"truncation\":{\"direction\":\"Right\",\
\"max_length\":2,\"strategy\":\"LongestFirst\",\"stride\":0},\"padding\":null,\
\"added_tokens\":[],\"normalizer\":null,\"pre_tokenizer\":{\"type\":\"Whitespace\"},\
\"post_processor\":null,\"decoder\":null,\"model\":{\"type\":\"WordPiece\",\
\"unk_token\":\"[UNK]\",\"continuing_subword_prefix\":\"##\",\
\"max_input_chars_per_word\":100,\
\"vocab\":{\"a\":0,\"##b\":1,\"##c\":2,\"[UNK]\":3}}}";
    let engine = allocate_tokenizer(&NativeBuffer::from_slice(config)).unwrap();
    let text = b"abc";

    let mut table = HandleTable::new();
    let truncating = tokenizer_encode(
        &mut table,
        &engine,
        &NativeBuffer::from_slice(text),
        false,
    )
    .unwrap();
    assert!(!truncating.overflowing_tokens_free_handle.is_null());
    assert_eq!(truncating.overflowing_tokens.len(), 1);
    assert_eq!(read_u32_view(&table, &truncating.ids), vec![0, 1]);
    assert_eq!(read_u32_view(&table, &truncating.overflowing_tokens[0].ids), vec![2]);

    let non_truncating = tokenizer_encode_non_truncating(
        &mut table,
        &engine,
        &NativeBuffer::from_slice(text),
        false,
    )
    .unwrap();
    assert!(non_truncating.overflowing_tokens_free_handle.is_null());
    assert_eq!(non_truncating.overflowing_tokens.len(), 0);
    assert_eq!(read_u32_view(&table, &non_truncating.ids), vec![0, 1]);

    free_with_handle(&mut table, truncating.overflowing_tokens_free_handle);
    free_with_handle(&mut table, truncating.original_output_free_handle);
    free_with_handle(&mut table, non_truncating.overflowing_tokens_free_handle);
    free_with_handle(&mut table, non_truncating.original_output_free_handle);
    free_tokenizer(engine);
}

#[test]
fn empty_text_and_empty_ids_are_valid_inputs() {
    let engine = engine();
    let mut table = HandleTable::new();
    let out = tokenizer_encode(&mut table, &engine, &NativeBuffer::empty(), false).unwrap();
    assert_eq!(read_u32_view(&table, &out.ids), Vec::<u32>::new());
    assert!(out.overflowing_tokens_free_handle.is_null());

    let decoded = tokenizer_decode(&mut table, &engine, &NativeBuffer::empty()).unwrap();
    assert_eq!(read_byte_view(&table, &decoded.text_buffer), Vec::<u8>::new());

    free_with_handle(&mut table, decoded.free_handle);
    free_with_handle(&mut table, out.original_output_free_handle);
    free_tokenizer(engine);
}

#[test]
fn ids_to_tokens_fills_one_view_per_id() {
    let engine = engine();
    let mut table = HandleTable::new();
    let ids = NativeBuffer::from_slice(&[0u32, 1, 2]);
    let mut views = vec![BufferView::empty(), BufferView::empty(), BufferView::empty()];

    let handle = ids_to_tokens(&mut table, &engine, &ids, &mut views).unwrap();
    assert_eq!(read_byte_view(&table, &views[0]), b"hello".to_vec());
    assert_eq!(read_byte_view(&table, &views[1]), b"world".to_vec());
    assert_eq!(read_byte_view(&table, &views[2]), b"[UNK]".to_vec());

    free_with_handle(&mut table, handle);
    free_tokenizer(engine);
}

#[test]
fn ids_to_tokens_on_an_empty_run_succeeds() {
    let engine = engine();
    let mut table = HandleTable::new();
    let ids: NativeBuffer<u32> = NativeBuffer::empty();
    let mut views: Vec<BufferView> = Vec::new();
    let handle = ids_to_tokens(&mut table, &engine, &ids, &mut views).unwrap();
    assert!(!handle.is_null());
    assert_eq!(views.len(), 0);
    free_with_handle(&mut table, handle);
    free_tokenizer(engine);
}

#[test]
fn decoding_the_same_ids_twice_gives_the_same_text() {
    let engine = engine();
    let mut table = HandleTable::new();
    let ids = NativeBuffer::from_slice(&[1u32, 0]);
    let first = tokenizer_decode(&mut table, &engine, &ids).unwrap();
    let second = tokenizer_decode(&mut table, &engine, &ids).unwrap();
    assert_eq!(
        read_byte_view(&table, &first.text_buffer),
        read_byte_view(&table, &second.text_buffer),
    );
    assert_eq!(read_byte_view(&table, &first.text_buffer), b"world hello".to_vec());
    free_with_handle(&mut table, first.free_handle);
    free_with_handle(&mut table, second.free_handle);
    free_tokenizer(engine);
}

#[test]
fn an_unknown_id_fails_the_whole_lookup() {
    let engine = engine();
    let mut table = HandleTable::new();
    let ids = NativeBuffer::from_slice(&[0u32, 99]);
    let mut views = vec![BufferView::empty(), BufferView::empty()];
    let result = ids_to_tokens(&mut table, &engine, &ids, &mut views);
    assert!(matches!(result, Err(BridgeError::UnknownId(99))));
    assert_eq!(table.slot_count(), 0);
    free_tokenizer(engine);
}

#[test]
fn text_that_is_not_utf8_is_rejected() {
    let engine = engine();
    let mut table = HandleTable::new();
    let result = tokenizer_encode(
        &mut table,
        &engine,
        &NativeBuffer::from_slice(&[0xffu8, 0xfe]),
        false,
    );
    assert!(matches!(result, Err(BridgeError::InvalidText)));
    assert_eq!(table.slot_count(), 0);
    free_tokenizer(engine);
}

fn empty_output() -> TokenizeOutput {
    TokenizeOutput {
        ids: BufferView::empty(),
        attention_mask: BufferView::empty(),
        special_tokens_mask: BufferView::empty(),
        token_type_ids: BufferView::empty(),
        overflowing_tokens: Vec::new(),
        original_output_free_handle: tokenizer_bridge::DropHandle::null(),
        overflowing_tokens_free_handle: tokenizer_bridge::DropHandle::null(),
    }
}
