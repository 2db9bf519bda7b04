//! Assembly of the externally visible result records.
//!
//! One engine result becomes a `TokenizeOutput`: four views aliasing the
//! primary arrays owned by a fresh encoding slot, plus — only when the caller
//! asked for truncation and the engine reported overflow — a run of overflow
//! records aliasing a fresh overflow-rows slot. Decoded text and looked-up
//! token strings are assembled the same way: the bytes move into a table slot
//! and the caller gets views plus the one handle that releases the slot.

use vstd::prelude::*;

use crate::encoding::{rows_model_seq, bytes_model_seq, EncodingData, EncodingModel, RowsModel, TokenRows};
use crate::refs::{
    lemma_resolve_u32_extend, lemma_resolve_u32_push, lemma_resolve_u32_release_other,
    resolve_bytes, resolve_u32, BufferView, EncField, Select,
};
use crate::table::{live, release_one, release_seq, DropHandle, HandleTable, OwnedModel, OwnedValue};

verus! {

/// A record of tokens cut off by truncation: four views aliasing one row of
/// the overflow vector owned by the output's overflow handle.
pub struct TokenizeOutputOverflowedToken {
    pub ids: BufferView,
    pub attention_mask: BufferView,
    pub special_tokens_mask: BufferView,
    pub token_type_ids: BufferView,
}

/// An overflow record is well-placed in table `t` for row `r` of the slot
/// owned by handle id `id`: its four views point into that slot and read
/// exactly the four arrays of `r`, each with its exact length.
pub open spec fn overflow_token_ok(
    t: Seq<Option<OwnedModel>>,
    tok: TokenizeOutputOverflowedToken,
    id: usize,
    r: RowsModel,
) -> bool {
    &&& tok.ids.handle_id == id
    &&& resolve_u32(t, tok.ids) == Some(r.ids)
    &&& tok.ids.length == r.ids.len()
    &&& tok.attention_mask.handle_id == id
    &&& resolve_u32(t, tok.attention_mask) == Some(r.attention_mask)
    &&& tok.attention_mask.length == r.attention_mask.len()
    &&& tok.special_tokens_mask.handle_id == id
    &&& resolve_u32(t, tok.special_tokens_mask) == Some(r.special_tokens_mask)
    &&& tok.special_tokens_mask.length == r.special_tokens_mask.len()
    &&& tok.token_type_ids.handle_id == id
    &&& resolve_u32(t, tok.token_type_ids) == Some(r.type_ids)
    &&& tok.token_type_ids.length == r.type_ids.len()
}

impl TokenizeOutputOverflowedToken {
    /// One overflow record: four views into row `index` of the overflow
    /// vector owned by `handle`.
    pub fn from_overflowing_encoded_tokens(handle: DropHandle, index: usize, rows: &TokenRows) -> (
        r: Self)
        ensures
            r.ids == (BufferView {
                handle_id: handle.id,
                select: Select::Row(index, EncField::Ids),
                length: rows.ids.len(),
            }),
            r.attention_mask == (BufferView {
                handle_id: handle.id,
                select: Select::Row(index, EncField::AttentionMask),
                length: rows.attention_mask.len(),
            }),
            r.special_tokens_mask == (BufferView {
                handle_id: handle.id,
                select: Select::Row(index, EncField::SpecialTokensMask),
                length: rows.special_tokens_mask.len(),
            }),
            r.token_type_ids == (BufferView {
                handle_id: handle.id,
                select: Select::Row(index, EncField::TypeIds),
                length: rows.type_ids.len(),
            }),
    {
        TokenizeOutputOverflowedToken {
            ids: BufferView {
                handle_id: handle.id,
                select: Select::Row(index, EncField::Ids),
                length: rows.ids.len(),
            },
            attention_mask: BufferView {
                handle_id: handle.id,
                select: Select::Row(index, EncField::AttentionMask),
                length: rows.attention_mask.len(),
            },
            special_tokens_mask: BufferView {
                handle_id: handle.id,
                select: Select::Row(index, EncField::SpecialTokensMask),
                length: rows.special_tokens_mask.len(),
            },
            token_type_ids: BufferView {
                handle_id: handle.id,
                select: Select::Row(index, EncField::TypeIds),
                length: rows.type_ids.len(),
            },
        }
    }
}

/// The flat result of one encode call.
pub struct TokenizeOutput {
    pub ids: BufferView,
    pub attention_mask: BufferView,
    pub special_tokens_mask: BufferView,
    pub token_type_ids: BufferView,
    pub overflowing_tokens: Vec<TokenizeOutputOverflowedToken>,
    pub original_output_free_handle: DropHandle,
    pub overflowing_tokens_free_handle: DropHandle,
}

/// Overflow policy: overflow data is materialized exactly when the caller
/// opted into truncation and the engine reported at least one overflow row.
pub open spec fn overflow_materialized(m: EncodingModel, truncate: bool) -> bool {
    truncate && m.overflowing.len() > 0
}

/// An output is well-assembled in table `t` for engine result `m`:
/// - its four primary views read exactly the four primary arrays, from the
///   live slot owned by `original_output_free_handle`;
/// - when overflow is materialized, the overflow handle is non-null, owns the
///   live slot holding exactly the reported overflow rows, and record `j`
///   reads exactly row `j`;
/// - otherwise the overflow run is empty and the overflow handle is null.
pub open spec fn tokenize_output_ok(
    t: Seq<Option<OwnedModel>>,
    out: TokenizeOutput,
    m: EncodingModel,
    truncate: bool,
) -> bool {
    &&& out.ids.handle_id == out.original_output_free_handle.id
    &&& resolve_u32(t, out.ids) == Some(m.primary.ids)
    &&& out.ids.length == m.primary.ids.len()
    &&& out.attention_mask.handle_id == out.original_output_free_handle.id
    &&& resolve_u32(t, out.attention_mask) == Some(m.primary.attention_mask)
    &&& out.attention_mask.length == m.primary.attention_mask.len()
    &&& out.special_tokens_mask.handle_id == out.original_output_free_handle.id
    &&& resolve_u32(t, out.special_tokens_mask) == Some(m.primary.special_tokens_mask)
    &&& out.special_tokens_mask.length == m.primary.special_tokens_mask.len()
    &&& out.token_type_ids.handle_id == out.original_output_free_handle.id
    &&& resolve_u32(t, out.token_type_ids) == Some(m.primary.type_ids)
    &&& out.token_type_ids.length == m.primary.type_ids.len()
    &&& live(t, out.original_output_free_handle.id)
    &&& t[out.original_output_free_handle.id - 1] == Some(OwnedModel::Encoding(m.primary))
    &&& if overflow_materialized(m, truncate) {
        &&& !out.overflowing_tokens_free_handle.spec_is_null()
        &&& live(t, out.overflowing_tokens_free_handle.id)
        &&& out.overflowing_tokens_free_handle.id != out.original_output_free_handle.id
        &&& t[out.overflowing_tokens_free_handle.id - 1] == Some(
            OwnedModel::OverflowRows(m.overflowing),
        )
        &&& out.overflowing_tokens@.len() == m.overflowing.len()
        &&& forall|j: int|
            0 <= j < m.overflowing.len() ==> overflow_token_ok(
                t,
                #[trigger] out.overflowing_tokens@[j],
                out.overflowing_tokens_free_handle.id,
                m.overflowing[j],
            )
    } else {
        &&& out.overflowing_tokens_free_handle.spec_is_null()
        &&& out.overflowing_tokens@.len() == 0
    }
}

impl TokenizeOutput {
    /// Assembles one engine result. The primary rows move into a fresh slot
    /// and the four primary views alias them there. Overflow rows are
    /// materialized into their own slot only for a truncating call that
    /// actually overflowed; otherwise they are discarded, the overflow run is
    /// empty and the overflow handle is null.
    pub fn from_encoded_tokens(table: &mut HandleTable, encoded_tokens: EncodingData, truncate:
        bool) -> (r: TokenizeOutput)
        ensures
            tokenize_output_ok(final(table)@, r, encoded_tokens@, truncate),
            final(table)@ == if overflow_materialized(encoded_tokens@, truncate) {
                old(table)@.push(Some(OwnedModel::OverflowRows(encoded_tokens@.overflowing))).push(
                    Some(OwnedModel::Encoding(encoded_tokens@.primary)),
                )
            } else {
                old(table)@.push(Some(OwnedModel::Encoding(encoded_tokens@.primary)))
            },
            old(table)@.len() < final(table)@.len(),
            forall|j: int| 0 <= j < old(table)@.len() ==> final(table)@[j] == old(table)@[j],
            r.original_output_free_handle.id > old(table)@.len(),
    {
        let ghost m = encoded_tokens@;
        let EncodingData { primary, overflowing } = encoded_tokens;

        let n_overflow = overflowing.len();
        let mut overflow_views: Vec<TokenizeOutputOverflowedToken> = Vec::new();
        let mut overflow_handle = DropHandle::null();

        if truncate && n_overflow > 0 {
            let h = DropHandle::from_value_and_allocate_box(
                table,
                OwnedValue::OverflowRows(overflowing),
            );
            overflow_handle = h;
            let ghost t1 = table@;
            let mut j: usize = 0;
            while j < n_overflow
                invariant
                    table@ == t1,
                    live(t1, h.id),
                    t1[h.id - 1] == Some(OwnedModel::OverflowRows(m.overflowing)),
                    n_overflow == m.overflowing.len(),
                    0 <= j <= n_overflow,
                    overflow_views@.len() == j,
                    forall|k: int|
                        0 <= k < j ==> overflow_token_ok(
                            t1,
                            #[trigger] overflow_views@[k],
                            h.id,
                            m.overflowing[k],
                        ),
                decreases n_overflow - j,
            {
                let rows = table.overflow_rows_ref(h.id);
                proof {
                    assert(rows_model_seq(rows@)[j as int] == rows@[j as int]@);
                }
                let tok = TokenizeOutputOverflowedToken::from_overflowing_encoded_tokens(
                    h,
                    j,
                    &rows[j],
                );
                overflow_views.push(tok);
                j += 1;
            }
        }
        // The primary array lengths, taken before the rows move into the table.
        let len_ids = primary.ids.len();
        let len_attention = primary.attention_mask.len();
        let len_special = primary.special_tokens_mask.len();
        let len_types = primary.type_ids.len();

        let ghost t_mid = table@;
        let original_handle = DropHandle::from_value_and_allocate_box(
            table,
            OwnedValue::Encoding(primary),
        );

        proof {
            if truncate && n_overflow > 0 {
                assert forall|k: int| 0 <= k < m.overflowing.len() implies overflow_token_ok(
                    table@,
                    overflow_views@[k],
                    overflow_handle.id,
                    m.overflowing[k],
                ) by {
                    lemma_resolve_u32_push(
                        t_mid,
                        overflow_views@[k].ids,
                        Some(OwnedModel::Encoding(m.primary)),
                    );
                    lemma_resolve_u32_push(
                        t_mid,
                        overflow_views@[k].attention_mask,
                        Some(OwnedModel::Encoding(m.primary)),
                    );
                    lemma_resolve_u32_push(
                        t_mid,
                        overflow_views@[k].special_tokens_mask,
                        Some(OwnedModel::Encoding(m.primary)),
                    );
                    lemma_resolve_u32_push(
                        t_mid,
                        overflow_views@[k].token_type_ids,
                        Some(OwnedModel::Encoding(m.primary)),
                    );
                }
            }
        }
        TokenizeOutput {
            ids: BufferView {
                handle_id: original_handle.id,
                select: Select::Primary(EncField::Ids),
                length: len_ids,
            },
            attention_mask: BufferView {
                handle_id: original_handle.id,
                select: Select::Primary(EncField::AttentionMask),
                length: len_attention,
            },
            special_tokens_mask: BufferView {
                handle_id: original_handle.id,
                select: Select::Primary(EncField::SpecialTokensMask),
                length: len_special,
            },
            token_type_ids: BufferView {
                handle_id: original_handle.id,
                select: Select::Primary(EncField::TypeIds),
                length: len_types,
            },
            overflowing_tokens: overflow_views,
            original_output_free_handle: original_handle,
            overflowing_tokens_free_handle: overflow_handle,
        }
    }
}

/// A well-assembled output stays well-assembled while the table only grows:
/// later allocations never disturb earlier outputs.
pub proof fn lemma_output_ok_extend(
    t1: Seq<Option<OwnedModel>>,
    t2: Seq<Option<OwnedModel>>,
    out: TokenizeOutput,
    m: EncodingModel,
    truncate: bool,
)
    requires
        tokenize_output_ok(t1, out, m, truncate),
        t1.len() <= t2.len(),
        forall|j: int| 0 <= j < t1.len() ==> t1[j] == t2[j],
    ensures
        tokenize_output_ok(t2, out, m, truncate),
{
    lemma_resolve_u32_extend(t1, t2, out.ids);
    lemma_resolve_u32_extend(t1, t2, out.attention_mask);
    lemma_resolve_u32_extend(t1, t2, out.special_tokens_mask);
    lemma_resolve_u32_extend(t1, t2, out.token_type_ids);
    if overflow_materialized(m, truncate) {
        assert forall|j: int| 0 <= j < m.overflowing.len() implies overflow_token_ok(
            t2,
            out.overflowing_tokens@[j],
            out.overflowing_tokens_free_handle.id,
            m.overflowing[j],
        ) by {
            lemma_resolve_u32_extend(t1, t2, out.overflowing_tokens@[j].ids);
            lemma_resolve_u32_extend(t1, t2, out.overflowing_tokens@[j].attention_mask);
            lemma_resolve_u32_extend(t1, t2, out.overflowing_tokens@[j].special_tokens_mask);
            lemma_resolve_u32_extend(t1, t2, out.overflowing_tokens@[j].token_type_ids);
        }
    }
}

/// Pre-release read stability: as long as an output's own handles are not
/// released, releasing any other handle leaves the whole output
/// well-assembled, so every one of its views still reads the same run.
pub proof fn lemma_output_reads_survive_other_release(
    t: Seq<Option<OwnedModel>>,
    out: TokenizeOutput,
    m: EncodingModel,
    truncate: bool,
    id: usize,
)
    requires
        tokenize_output_ok(t, out, m, truncate),
        id != out.original_output_free_handle.id,
        id != out.overflowing_tokens_free_handle.id,
        id <= t.len(),
    ensures
        tokenize_output_ok(release_one(t, id), out, m, truncate),
{
    let t2 = release_one(t, id);
    lemma_resolve_u32_release_other(t, out.ids, id);
    lemma_resolve_u32_release_other(t, out.attention_mask, id);
    lemma_resolve_u32_release_other(t, out.special_tokens_mask, id);
    lemma_resolve_u32_release_other(t, out.token_type_ids, id);
    if overflow_materialized(m, truncate) {
        assert forall|j: int| 0 <= j < m.overflowing.len() implies overflow_token_ok(
            t2,
            out.overflowing_tokens@[j],
            out.overflowing_tokens_free_handle.id,
            m.overflowing[j],
        ) by {
            lemma_resolve_u32_release_other(t, out.overflowing_tokens@[j].ids, id);
            lemma_resolve_u32_release_other(t, out.overflowing_tokens@[j].attention_mask, id);
            lemma_resolve_u32_release_other(t, out.overflowing_tokens@[j].special_tokens_mask, id);
            lemma_resolve_u32_release_other(t, out.overflowing_tokens@[j].token_type_ids, id);
        }
    }
}

/// Overflow policy law: for one and the same engine result, a truncating
/// assembly exposes a non-empty overflow run and a non-null overflow handle
/// exactly when the engine reported overflow, while a non-truncating
/// assembly always exposes the empty run and the null handle, even though
/// the same overflow existed in the engine result.
pub proof fn lemma_overflow_policy(
    t_truncating: Seq<Option<OwnedModel>>,
    t_plain: Seq<Option<OwnedModel>>,
    out_truncating: TokenizeOutput,
    out_plain: TokenizeOutput,
    m: EncodingModel,
)
    requires
        tokenize_output_ok(t_truncating, out_truncating, m, true),
        tokenize_output_ok(t_plain, out_plain, m, false),
    ensures
        m.overflowing.len() > 0 <==> !out_truncating.overflowing_tokens_free_handle.spec_is_null(),
        m.overflowing.len() > 0 <==> out_truncating.overflowing_tokens@.len() > 0,
        out_plain.overflowing_tokens_free_handle.spec_is_null(),
        out_plain.overflowing_tokens@.len() == 0,
{
}

/// Pre-release read stability under bulk release: a run of releases that
/// names neither of an output's handles leaves the whole output
/// well-assembled.
pub proof fn lemma_output_reads_survive_bulk_release(
    t: Seq<Option<OwnedModel>>,
    out: TokenizeOutput,
    m: EncodingModel,
    truncate: bool,
    ids: Seq<usize>,
)
    requires
        tokenize_output_ok(t, out, m, truncate),
        forall|k: int|
            0 <= k < ids.len() ==> #[trigger] ids[k] <= t.len() && ids[k]
                != out.original_output_free_handle.id && ids[k]
                != out.overflowing_tokens_free_handle.id,
    ensures
        tokenize_output_ok(release_seq(t, ids), out, m, truncate),
    decreases ids.len(),
{
    if ids.len() > 0 {
        lemma_output_reads_survive_other_release(t, out, m, truncate, ids[0]);
        lemma_output_reads_survive_bulk_release(
            release_one(t, ids[0]),
            out,
            m,
            truncate,
            ids.drop_first(),
        );
    }
}

/// Use-after-release has no reading: once the output's own encoding handle is
/// released, its primary views no longer resolve to anything.
pub proof fn lemma_released_views_do_not_read(
    t: Seq<Option<OwnedModel>>,
    out: TokenizeOutput,
    m: EncodingModel,
    truncate: bool,
)
    requires
        tokenize_output_ok(t, out, m, truncate),
    ensures
        resolve_u32(release_one(t, out.original_output_free_handle.id), out.ids) is None,
        resolve_u32(
            release_one(t, out.original_output_free_handle.id),
            out.attention_mask,
        ) is None,
        resolve_u32(
            release_one(t, out.original_output_free_handle.id),
            out.special_tokens_mask,
        ) is None,
        resolve_u32(
            release_one(t, out.original_output_free_handle.id),
            out.token_type_ids,
        ) is None,
{
}

/// The models of a batch of engine results, element by element.
pub open spec fn encoding_models(s: Seq<EncodingData>) -> Seq<EncodingModel> {
    s.map_values(|d: EncodingData| d@)
}

/// Assembles a whole batch of engine results into the caller's pre-sized
/// output run: slot `i` is assembled from result `i`, so input order is
/// preserved exactly, for any batch size including zero.
pub fn from_encoded_tokens_batch(
    table: &mut HandleTable,
    encoded_batch: Vec<EncodingData>,
    output_buffer: &mut Vec<TokenizeOutput>,
    truncate: bool,
)
    requires
        old(output_buffer)@.len() == encoded_batch@.len(),
    ensures
        final(output_buffer)@.len() == encoded_batch@.len(),
        forall|i: int|
            0 <= i < encoded_batch@.len() ==> tokenize_output_ok(
                final(table)@,
                #[trigger] final(output_buffer)@[i],
                encoding_models(encoded_batch@)[i],
                truncate,
            ),
        old(table)@.len() <= final(table)@.len(),
        forall|j: int| 0 <= j < old(table)@.len() ==> final(table)@[j] == old(table)@[j],
{
    let ghost models = encoding_models(encoded_batch@);
    let ghost t0 = old(table)@;
    let mut remaining = encoded_batch;
    let n = remaining.len();
    let mut i: usize = 0;
    while i < n
        invariant
            n == models.len(),
            0 <= i <= n,
            output_buffer@.len() == n,
            remaining@.len() == n - i,
            forall|k: int| 0 <= k < remaining@.len() ==> (#[trigger] remaining@[k])@ == models[
                i + k
            ],
            t0.len() <= table@.len(),
            forall|j: int| 0 <= j < t0.len() ==> t0[j] == table@[j],
            forall|k: int|
                0 <= k < i ==> tokenize_output_ok(
                    table@,
                    #[trigger] output_buffer@[k],
                    models[k],
                    truncate,
                ),
        decreases n - i,
    {
        let d = remaining.remove(0);
        let ghost t_pre = table@;
        let out = TokenizeOutput::from_encoded_tokens(table, d, truncate);
        proof {
            assert forall|k: int| 0 <= k < i implies tokenize_output_ok(
                table@,
                #[trigger] output_buffer@[k],
                models[k],
                truncate,
            ) by {
                lemma_output_ok_extend(t_pre, table@, output_buffer@[k], models[k], truncate);
            }
        }
        let slot = vstd::std_specs::vec::vec_index_mut(output_buffer, i);
        *slot = out;
        i += 1;
    }
}

/// The flat result of one decode call: the decoded text's bytes, owned by the
/// slot behind `free_handle` and read through `text_buffer`.
pub struct DecodeOutput {
    pub text_buffer: BufferView,
    pub free_handle: DropHandle,
}

impl DecodeOutput {
    /// Takes ownership of decoded text bytes: they move into a fresh text
    /// slot, the returned view reads exactly them, and the returned handle
    /// owns the slot.
    pub fn from_text(table: &mut HandleTable, text: Vec<u8>) -> (r: DecodeOutput)
        ensures
            final(table)@ == old(table)@.push(Some(OwnedModel::Text(text@))),
            r.free_handle.id == old(table)@.len() + 1,
            !r.free_handle.spec_is_null(),
            resolve_bytes(final(table)@, r.text_buffer) == Some(text@),
            r.text_buffer.length == text@.len(),
            r.text_buffer.handle_id == r.free_handle.id,
    {
        let length = text.len();
        let h = DropHandle::from_value_and_allocate_box(table, OwnedValue::Text(text));
        DecodeOutput {
            text_buffer: BufferView { handle_id: h.id, select: Select::Text, length },
            free_handle: h,
        }
    }
}

/// Takes ownership of the token byte strings of one id-to-token call: all of
/// them move into one fresh tokens slot, view `i` of the returned run reads
/// exactly token `i`, and the one returned handle owns every token of the
/// call.
pub fn views_over_token_texts(table: &mut HandleTable, tokens: Vec<Vec<u8>>) -> (r: (
    Vec<BufferView>,
    DropHandle,
))
    ensures
        final(table)@ == old(table)@.push(Some(OwnedModel::Tokens(bytes_model_seq(tokens@)))),
        r.1.id == old(table)@.len() + 1,
        !r.1.spec_is_null(),
        r.0@.len() == tokens@.len(),
        forall|i: int|
            0 <= i < tokens@.len() ==> resolve_bytes(final(table)@, #[trigger] r.0@[i]) == Some(
                tokens@[i]@,
            ) && r.0@[i].length == tokens@[i]@.len() && r.0@[i].handle_id == r.1.id,
{
    let n = tokens.len();
    let ghost toks = bytes_model_seq(tokens@);
    let h = DropHandle::from_value_and_allocate_box(table, OwnedValue::Tokens(tokens));
    let ghost t1 = table@;
    let mut views: Vec<BufferView> = Vec::new();
    let mut i: usize = 0;
    while i < n
        invariant
            table@ == t1,
            live(t1, h.id),
            t1[h.id - 1] == Some(OwnedModel::Tokens(toks)),
            n == toks.len(),
            0 <= i <= n,
            views@.len() == i,
            forall|k: int|
                0 <= k < i ==> resolve_bytes(t1, #[trigger] views@[k]) == Some(toks[k])
                    && views@[k].length == toks[k].len() && views@[k].handle_id == h.id,
        decreases n - i,
    {
        let ts = table.tokens_ref(h.id);
        proof {
            assert(bytes_model_seq(ts@)[i as int] == ts@[i as int]@);
        }
        let length = ts[i].len();
        views.push(BufferView { handle_id: h.id, select: Select::Token(i), length });
        i += 1;
    }
    (views, h)
}

} // verus!
