//! Caller-readable views into table-owned storage.
//!
//! A `BufferView` is the non-owning, length-carrying descriptor handed across
//! the boundary for every array the bridge produces. It names the table slot
//! that owns the backing storage and the run of elements inside it. A view
//! reads its run exactly while that slot is live; the canonical empty view
//! (handle id 0, length 0) is always readable as the empty run.

use vstd::prelude::*;

use crate::encoding::{RowsModel, TokenRows};
use crate::table::{live, release_one, HandleTable, OwnedModel, OwnedValue};

verus! {

/// Which of the four parallel arrays of an encoding a view selects.
#[derive(Clone, Copy, PartialEq, Eq, Structural)]
pub enum EncField {
    Ids,
    AttentionMask,
    SpecialTokensMask,
    TypeIds,
}

/// Where inside an owned value a view points.
#[derive(Clone, Copy, PartialEq, Eq, Structural)]
pub enum Select {
    /// One array of the primary rows of an encoding slot.
    Primary(EncField),
    /// One array of the given row of an overflow-rows slot.
    Row(usize, EncField),
    /// The whole byte run of a text slot.
    Text,
    /// The given token of a tokens slot.
    Token(usize),
}

/// A non-owning, length-carrying descriptor over one contiguous run of
/// elements owned by a handle-table slot. Handle id 0 with length 0 is the
/// canonical empty view: nothing backs it and it always reads as empty.
#[derive(Clone, Copy, PartialEq, Eq, Structural)]
pub struct BufferView {
    pub handle_id: usize,
    pub select: Select,
    pub length: usize,
}

impl BufferView {
    /// The canonical empty view.
    pub fn empty() -> (r: Self)
        ensures
            r == Self::spec_empty(),
    {
        BufferView { handle_id: 0, select: Select::Text, length: 0 }
    }

    /// The canonical empty view, as a spec value.
    pub open spec fn spec_empty() -> Self {
        BufferView { handle_id: 0, select: Select::Text, length: 0 }
    }
}

/// The array that field `f` selects in rows `r`.
pub open spec fn row_field(r: RowsModel, f: EncField) -> Seq<u32> {
    match f {
        EncField::Ids => r.ids,
        EncField::AttentionMask => r.attention_mask,
        EncField::SpecialTokensMask => r.special_tokens_mask,
        EncField::TypeIds => r.type_ids,
    }
}

/// What a view of u32 elements reads in table `t`: the selected run while its
/// slot is live, the empty run for the canonical empty view, and nothing once
/// the slot is released or when the view does not fit the slot.
pub open spec fn resolve_u32(t: Seq<Option<OwnedModel>>, v: BufferView) -> Option<Seq<u32>> {
    if v.handle_id == 0 {
        if v.length == 0 {
            Some(Seq::<u32>::empty())
        } else {
            None
        }
    } else if live(t, v.handle_id) {
        match t[v.handle_id - 1] {
            Some(OwnedModel::Encoding(rows)) => match v.select {
                Select::Primary(f) => Some(row_field(rows, f)),
                _ => None,
            },
            Some(OwnedModel::OverflowRows(rows)) => match v.select {
                Select::Row(j, f) => if j < rows.len() {
                    Some(row_field(rows[j as int], f))
                } else {
                    None
                },
                _ => None,
            },
            _ => None,
        }
    } else {
        None
    }
}

/// What a view of bytes reads in table `t`.
pub open spec fn resolve_bytes(t: Seq<Option<OwnedModel>>, v: BufferView) -> Option<Seq<u8>> {
    if v.handle_id == 0 {
        if v.length == 0 {
            Some(Seq::<u8>::empty())
        } else {
            None
        }
    } else if live(t, v.handle_id) {
        match t[v.handle_id - 1] {
            Some(OwnedModel::Text(bytes)) => match v.select {
                Select::Text => Some(bytes),
                _ => None,
            },
            Some(OwnedModel::Tokens(tokens)) => match v.select {
                Select::Token(j) => if j < tokens.len() {
                    Some(tokens[j as int])
                } else {
                    None
                },
                _ => None,
            },
            _ => None,
        }
    } else {
        None
    }
}

/// A u32 view is readable in `t`: it resolves and its recorded length is the
/// length of what it reads.
pub open spec fn u32_view_ok(t: Seq<Option<OwnedModel>>, v: BufferView) -> bool {
    resolve_u32(t, v) matches Some(s) && s.len() == v.length
}

/// A byte view is readable in `t`: it resolves and its recorded length is the
/// length of what it reads.
pub open spec fn byte_view_ok(t: Seq<Option<OwnedModel>>, v: BufferView) -> bool {
    resolve_bytes(t, v) matches Some(s) && s.len() == v.length
}

/// The length of the array that field `f` selects in `rows`.
fn row_field_len(rows: &TokenRows, f: EncField) -> (r: usize)
    ensures
        r == row_field(rows@, f).len(),
{
    match f {
        EncField::Ids => rows.ids.len(),
        EncField::AttentionMask => rows.attention_mask.len(),
        EncField::SpecialTokensMask => rows.special_tokens_mask.len(),
        EncField::TypeIds => rows.type_ids.len(),
    }
}

/// Whether a u32 view is readable in the table right now: the executable
/// counterpart of `u32_view_ok`, for callers that must test before they read.
pub fn u32_view_readable(table: &HandleTable, v: &BufferView) -> (r: bool)
    ensures
        r == u32_view_ok(table@, *v),
{
    if v.handle_id == 0 {
        v.length == 0
    } else if v.handle_id > table.slot_count() {
        false
    } else {
        match (table.slot_ref(v.handle_id - 1), v.select) {
            (Some(OwnedValue::Encoding(rows)), Select::Primary(f)) => row_field_len(rows, f)
                == v.length,
            (Some(OwnedValue::OverflowRows(rows)), Select::Row(j, f)) => j < rows.len()
                && row_field_len(&rows[j], f) == v.length,
            _ => false,
        }
    }
}

/// Whether a byte view is readable in the table right now: the executable
/// counterpart of `byte_view_ok`, for callers that must test before they
/// read.
pub fn byte_view_readable(table: &HandleTable, v: &BufferView) -> (r: bool)
    ensures
        r == byte_view_ok(table@, *v),
{
    if v.handle_id == 0 {
        v.length == 0
    } else if v.handle_id > table.slot_count() {
        false
    } else {
        match (table.slot_ref(v.handle_id - 1), v.select) {
            (Some(OwnedValue::Text(bytes)), Select::Text) => bytes.len() == v.length,
            (Some(OwnedValue::Tokens(tokens)), Select::Token(j)) => j < tokens.len()
                && tokens[j].len() == v.length,
            _ => false,
        }
    }
}

/// The array that field `f` selects, copied out of `rows`.
fn copy_row_field(rows: &TokenRows, f: EncField) -> (r: Vec<u32>)
    ensures
        r@ == row_field(rows@, f),
{
    match f {
        EncField::Ids => vstd::slice::slice_to_vec(rows.ids.as_slice()),
        EncField::AttentionMask => vstd::slice::slice_to_vec(rows.attention_mask.as_slice()),
        EncField::SpecialTokensMask => vstd::slice::slice_to_vec(
            rows.special_tokens_mask.as_slice(),
        ),
        EncField::TypeIds => vstd::slice::slice_to_vec(rows.type_ids.as_slice()),
    }
}

/// Reads a readable u32 view: exactly the run the view describes, for as long
/// as the owning slot is live.
pub fn read_u32_view(table: &HandleTable, v: &BufferView) -> (r: Vec<u32>)
    requires
        u32_view_ok(table@, *v),
    ensures
        Some(r@) == resolve_u32(table@, *v),
        r@.len() == v.length,
{
    if v.handle_id == 0 {
        Vec::new()
    } else {
        match v.select {
            Select::Primary(f) => {
                let rows = table.encoding_ref(v.handle_id);
                copy_row_field(rows, f)
            },
            Select::Row(j, f) => {
                let rows = table.overflow_rows_ref(v.handle_id);
                copy_row_field(&rows[j], f)
            },
            _ => vstd::pervasive::unreached(),
        }
    }
}

/// Reads a readable byte view: exactly the run the view describes, for as
/// long as the owning slot is live.
pub fn read_byte_view(table: &HandleTable, v: &BufferView) -> (r: Vec<u8>)
    requires
        byte_view_ok(table@, *v),
    ensures
        Some(r@) == resolve_bytes(table@, *v),
        r@.len() == v.length,
{
    if v.handle_id == 0 {
        Vec::new()
    } else {
        match v.select {
            Select::Text => {
                let bytes = table.text_ref(v.handle_id);
                vstd::slice::slice_to_vec(bytes.as_slice())
            },
            Select::Token(j) => {
                let tokens = table.tokens_ref(v.handle_id);
                vstd::slice::slice_to_vec(tokens[j].as_slice())
            },
            _ => vstd::pervasive::unreached(),
        }
    }
}

/// Read stability under growth: a view that reads in `t` reads the same after
/// the table gains a slot.
pub proof fn lemma_resolve_u32_push(
    t: Seq<Option<OwnedModel>>,
    v: BufferView,
    s: Option<OwnedModel>,
)
    requires
        resolve_u32(t, v) is Some,
    ensures
        resolve_u32(t.push(s), v) == resolve_u32(t, v),
{
}

/// Read stability under growth of any kind: a view that reads in `t1` reads
/// the same in any table that extends `t1` slot for slot.
pub proof fn lemma_resolve_u32_extend(
    t1: Seq<Option<OwnedModel>>,
    t2: Seq<Option<OwnedModel>>,
    v: BufferView,
)
    requires
        resolve_u32(t1, v) is Some,
        t1.len() <= t2.len(),
        forall|j: int| 0 <= j < t1.len() ==> t1[j] == t2[j],
    ensures
        resolve_u32(t2, v) == resolve_u32(t1, v),
{
}

/// Read stability under release: releasing any other handle leaves what a
/// view reads untouched; only releasing the view's own handle can change it.
pub proof fn lemma_resolve_u32_release_other(
    t: Seq<Option<OwnedModel>>,
    v: BufferView,
    id: usize,
)
    requires
        id != v.handle_id,
        id <= t.len(),
    ensures
        resolve_u32(release_one(t, id), v) == resolve_u32(t, v),
{
}

/// Read stability under release, for byte views.
pub proof fn lemma_resolve_bytes_release_other(
    t: Seq<Option<OwnedModel>>,
    v: BufferView,
    id: usize,
)
    requires
        id != v.handle_id,
        id <= t.len(),
    ensures
        resolve_bytes(release_one(t, id), v) == resolve_bytes(t, v),
{
}

} // verus!
