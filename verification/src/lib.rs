//! A memory-ownership bridge around an in-process text-tokenization engine.
//!
//! The engine (the `tokenizers` crate) produces encodings, decoded text and
//! token strings. This library turns those results into flat, caller-readable
//! records: every array is exposed through a `BufferView` descriptor into a
//! `HandleTable` that owns the backing storage, and every owned allocation is
//! released exactly once through a `DropHandle`. The assembly logic, the view
//! resolution and the release protocol are verified; the engine itself is
//! opaque and reached only through a few trusted wrappers.

pub mod bridge;
pub mod buffer;
pub mod encoding;
pub mod engine;
pub mod output;
pub mod refs;
pub mod table;

pub use bridge::{
    allocate_tokenizer, free_tokenizer, ids_to_tokens, tokenizer_decode, tokenizer_decode_core,
    tokenizer_decode_skip_special_tokens, tokenizer_encode, tokenizer_encode_batch,
    tokenizer_encode_batch_core, tokenizer_encode_batch_non_truncating, tokenizer_encode_core,
    tokenizer_encode_non_truncating, BridgeError,
};
pub use buffer::NativeBuffer;
pub use encoding::{EncodingData, EncodingModel, RowsModel, TokenRows};
pub use engine::Engine;
pub use output::{DecodeOutput, TokenizeOutput, TokenizeOutputOverflowedToken};
pub use refs::{BufferView, EncField, Select};
pub use table::{
    free_with_handle, free_with_multiple_handles, DropHandle, HandleTable, OwnedModel, OwnedValue,
};
