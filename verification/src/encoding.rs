//! Plain data carried out of the tokenization engine.
//!
//! The engine is opaque: the bridge never looks inside it. What the bridge
//! assembles and owns are the four parallel token arrays of an encoding and
//! the overflow rows that truncation produced, held here as plain vectors.

use vstd::prelude::*;

verus! {

/// The four parallel arrays of one encoding: token ids, attention mask,
/// special-tokens mask and token-type ids.
pub struct TokenRows {
    pub ids: Vec<u32>,
    pub attention_mask: Vec<u32>,
    pub special_tokens_mask: Vec<u32>,
    pub type_ids: Vec<u32>,
}

/// The mathematical model of `TokenRows`: each array as a sequence.
pub ghost struct RowsModel {
    pub ids: Seq<u32>,
    pub attention_mask: Seq<u32>,
    pub special_tokens_mask: Seq<u32>,
    pub type_ids: Seq<u32>,
}

impl View for TokenRows {
    type V = RowsModel;

    open spec fn view(&self) -> RowsModel {
        RowsModel {
            ids: self.ids@,
            attention_mask: self.attention_mask@,
            special_tokens_mask: self.special_tokens_mask@,
            type_ids: self.type_ids@,
        }
    }
}

/// One complete engine result: the primary rows and the overflow rows that
/// were cut off when the encoding exceeded the truncation length.
pub struct EncodingData {
    pub primary: TokenRows,
    pub overflowing: Vec<TokenRows>,
}

/// The mathematical model of `EncodingData`.
pub ghost struct EncodingModel {
    pub primary: RowsModel,
    pub overflowing: Seq<RowsModel>,
}

impl View for EncodingData {
    type V = EncodingModel;

    open spec fn view(&self) -> EncodingModel {
        EncodingModel { primary: self.primary@, overflowing: rows_model_seq(self.overflowing@) }
    }
}

/// The models of a run of token rows, element by element.
pub open spec fn rows_model_seq(rows: Seq<TokenRows>) -> Seq<RowsModel> {
    rows.map_values(|r: TokenRows| r@)
}

/// The models of a run of byte strings, element by element.
pub open spec fn bytes_model_seq(ts: Seq<Vec<u8>>) -> Seq<Seq<u8>> {
    ts.map_values(|b: Vec<u8>| b@)
}

} // verus!
