//! Engine-free tests of the buffer type, the handle table, the release
//! protocol and the output assembly.

use tokenizer_bridge::encoding::{EncodingData, TokenRows};
use tokenizer_bridge::output::{views_over_token_texts, DecodeOutput, TokenizeOutput};
use tokenizer_bridge::refs::{
    byte_view_readable, read_byte_view, read_u32_view, u32_view_readable, BufferView, Select,
};
use tokenizer_bridge::table::{
    free_with_handle, free_with_multiple_handles, DropHandle, HandleTable, OwnedValue,
};
use tokenizer_bridge::NativeBuffer;

fn rows(ids: Vec<u32>) -> TokenRows {
    let n = ids.len();
    TokenRows {
        ids,
        attention_mask: vec![1; n],
        special_tokens_mask: vec![0; n],
        type_ids: vec![0; n],
    }
}

#[test]
fn native_buffer_constructors_carry_exact_contents() {
    let empty: NativeBuffer<u32> = NativeBuffer::empty();
    assert_eq!(empty.len(), 0);
    assert_eq!(empty.as_slice(), &[] as &[u32]);

    let from_slice = NativeBuffer::from_slice(&[1u32, 2, 3]);
    assert_eq!(from_slice.as_slice(), &[1u32, 2, 3]);
    assert_eq!(from_slice.len(), 3);
    assert_eq!(*from_slice.get(1), 2);

    let mut source = vec![7u8, 8];
    let from_mutable_slice = NativeBuffer::from_mutable_slice(&mut source);
    assert_eq!(from_mutable_slice.as_slice(), &[7u8, 8]);
    assert_eq!(source, vec![7u8, 8]);

    let from_vec = NativeBuffer::from_vec(&source);
    assert_eq!(from_vec.as_slice(), &[7u8, 8]);

    let from_mutable_vec = NativeBuffer::from_mutable_vec(vec![9u8]);
    assert_eq!(from_mutable_vec.as_slice(), &[9u8]);
}

#[test]
fn releasing_a_null_handle_is_a_noop() {
    let mut table = HandleTable::new();
    let null = DropHandle::null();
    assert!(null.is_null());
    assert!(table.can_release(null));
    free_with_handle(&mut table, null);
    assert_eq!(table.slot_count(), 0);

    // Also a no-op on a table that owns something.
    let handle = DropHandle::from_value_and_allocate_box(
        &mut table,
        OwnedValue::Text(b"abc".to_vec()),
    );
    free_with_handle(&mut table, DropHandle::null());
    assert!(table.can_release(handle));
    assert_eq!(table.slot_count(), 1);
}

#[test]
fn a_handle_releases_exactly_its_own_slot() {
    let mut table = HandleTable::new();
    let first = DropHandle::from_value_and_allocate_box(
        &mut table,
        OwnedValue::Text(b"first".to_vec()),
    );
    let second = DropHandle::from_value_and_allocate_box(
        &mut table,
        OwnedValue::Text(b"second".to_vec()),
    );
    assert!(!first.is_null());
    assert_ne!(first.id, second.id);

    free_with_handle(&mut table, first);
    assert!(!table.can_release(first));
    assert!(table.can_release(second));

    let view = BufferView { handle_id: second.id, select: Select::Text, length: 6 };
    assert_eq!(read_byte_view(&table, &view), b"second".to_vec());
}

#[test]
fn bulk_release_matches_releasing_each_handle_in_order() {
    let mut bulk_table = HandleTable::new();
    let mut seq_table = HandleTable::new();
    let mut bulk_handles = Vec::new();
    let mut seq_handles = Vec::new();
    for text in [b"one".to_vec(), b"two".to_vec(), b"three".to_vec()] {
        bulk_handles.push(DropHandle::from_value_and_allocate_box(
            &mut bulk_table,
            OwnedValue::Text(text.clone()),
        ));
        seq_handles.push(DropHandle::from_value_and_allocate_box(
            &mut seq_table,
            OwnedValue::Text(text),
        ));
    }

    free_with_multiple_handles(&mut bulk_table, &NativeBuffer::from_vec(&bulk_handles));
    for handle in &seq_handles {
        free_with_handle(&mut seq_table, *handle);
    }

    assert_eq!(bulk_table.slot_count(), seq_table.slot_count());
    for (bulk, seq) in bulk_handles.iter().zip(seq_handles.iter()) {
        assert!(!bulk_table.can_release(*bulk));
        assert!(!seq_table.can_release(*seq));
    }
}

#[test]
fn bulk_release_accepts_null_handles_anywhere_in_the_run() {
    let mut table = HandleTable::new();
    let handle = DropHandle::from_value_and_allocate_box(
        &mut table,
        OwnedValue::Text(b"x".to_vec()),
    );
    let run = vec![DropHandle::null(), handle, DropHandle::null()];
    free_with_multiple_handles(&mut table, &NativeBuffer::from_vec(&run));
    assert!(!table.can_release(handle));
    assert_eq!(table.slot_count(), 1);
}

#[test]
fn truncating_assembly_materializes_overflow() {
    let mut table = HandleTable::new();
    let data = EncodingData {
        primary: rows(vec![0, 1]),
        overflowing: vec![rows(vec![2, 3]), rows(vec![4])],
    };
    let out = TokenizeOutput::from_encoded_tokens(&mut table, data, true);

    assert!(!out.overflowing_tokens_free_handle.is_null());
    assert_eq!(out.overflowing_tokens.len(), 2);
    assert_eq!(read_u32_view(&table, &out.ids), vec![0, 1]);
    assert_eq!(read_u32_view(&table, &out.attention_mask), vec![1, 1]);
    assert_eq!(read_u32_view(&table, &out.overflowing_tokens[0].ids), vec![2, 3]);
    assert_eq!(read_u32_view(&table, &out.overflowing_tokens[1].ids), vec![4]);
    assert_eq!(out.overflowing_tokens[1].ids.length, 1);

    // One handle per owned allocation: the overflow rows and the encoding.
    assert_eq!(table.slot_count(), 2);
    free_with_handle(&mut table, out.overflowing_tokens_free_handle);
    free_with_handle(&mut table, out.original_output_free_handle);
}

#[test]
fn non_truncating_assembly_discards_overflow() {
    let mut table = HandleTable::new();
    let data = EncodingData {
        primary: rows(vec![0, 1]),
        overflowing: vec![rows(vec![2, 3])],
    };
    let out = TokenizeOutput::from_encoded_tokens(&mut table, data, false);

    assert!(out.overflowing_tokens_free_handle.is_null());
    assert_eq!(out.overflowing_tokens.len(), 0);
    assert_eq!(read_u32_view(&table, &out.ids), vec![0, 1]);
    assert_eq!(table.slot_count(), 1);

    // The canonical empty case releases as a no-op.
    free_with_handle(&mut table, out.overflowing_tokens_free_handle);
    free_with_handle(&mut table, out.original_output_free_handle);
    assert!(!table.can_release(out.original_output_free_handle));
}

#[test]
fn reads_are_stable_until_the_owning_handle_is_released() {
    let mut table = HandleTable::new();
    let data = EncodingData { primary: rows(vec![5, 6, 7]), overflowing: vec![rows(vec![8])] };
    let out = TokenizeOutput::from_encoded_tokens(&mut table, data, true);

    let first_read = read_u32_view(&table, &out.ids);
    let second_read = read_u32_view(&table, &out.ids);
    assert_eq!(first_read, second_read);

    // Releasing an unrelated handle leaves the read untouched.
    free_with_handle(&mut table, out.overflowing_tokens_free_handle);
    assert_eq!(read_u32_view(&table, &out.ids), first_read);

    free_with_handle(&mut table, out.original_output_free_handle);
    assert!(!table.can_release(out.original_output_free_handle));
}

#[test]
fn view_readability_follows_slot_liveness() {
    let mut table = HandleTable::new();
    let data = EncodingData { primary: rows(vec![3, 4]), overflowing: Vec::new() };
    let out = TokenizeOutput::from_encoded_tokens(&mut table, data, true);

    assert!(u32_view_readable(&table, &out.ids));
    // A view whose recorded length does not fit its slot is not readable.
    let mut wrong = out.ids;
    wrong.length = 5;
    assert!(!u32_view_readable(&table, &wrong));
    // A view over a slot that never existed is not readable.
    let mut stray = out.ids;
    stray.handle_id = 17;
    assert!(!u32_view_readable(&table, &stray));

    let text = DecodeOutput::from_text(&mut table, b"abc".to_vec());
    assert!(byte_view_readable(&table, &text.text_buffer));
    free_with_handle(&mut table, text.free_handle);
    assert!(!byte_view_readable(&table, &text.text_buffer));

    free_with_handle(&mut table, out.original_output_free_handle);
    assert!(!u32_view_readable(&table, &out.ids));

    // The canonical empty view is always readable.
    assert!(u32_view_readable(&table, &BufferView::empty()));
    assert!(byte_view_readable(&table, &BufferView::empty()));
}

#[test]
fn the_canonical_empty_view_reads_as_empty() {
    let table = HandleTable::new();
    let view = BufferView::empty();
    assert_eq!(view.length, 0);
    assert_eq!(read_byte_view(&table, &view), Vec::<u8>::new());
}

#[test]
fn decode_output_aliases_the_owned_text() {
    let mut table = HandleTable::new();
    let out = DecodeOutput::from_text(&mut table, b"hello world".to_vec());
    assert!(!out.free_handle.is_null());
    assert_eq!(out.text_buffer.length, 11);
    assert_eq!(read_byte_view(&table, &out.text_buffer), b"hello world".to_vec());
    free_with_handle(&mut table, out.free_handle);
}

#[test]
fn one_handle_owns_every_token_text_of_a_call() {
    let mut table = HandleTable::new();
    let (views, handle) = views_over_token_texts(
        &mut table,
        vec![b"hello".to_vec(), b"world".to_vec()],
    );
    assert_eq!(views.len(), 2);
    assert_eq!(read_byte_view(&table, &views[0]), b"hello".to_vec());
    assert_eq!(read_byte_view(&table, &views[1]), b"world".to_vec());
    assert_eq!(views[0].length, 5);
    assert_eq!(table.slot_count(), 1);
    free_with_handle(&mut table, handle);
    assert!(!table.can_release(handle));
}
