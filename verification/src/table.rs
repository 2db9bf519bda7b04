//! Ownership of everything the bridge allocates, and the release protocol.
//!
//! Every value produced for the caller (an encoding's rows, the overflow rows,
//! decoded text, looked-up token strings) is placed in a `HandleTable` slot and
//! paired with a `DropHandle` naming that slot. The caller releases each handle
//! exactly once; a null handle (id 0) means "nothing to release" and releasing
//! it is a no-op. Views into a slot are readable exactly while the slot is
//! live.

use vstd::prelude::*;

use crate::buffer::NativeBuffer;
use crate::encoding::{bytes_model_seq, rows_model_seq, RowsModel, TokenRows};

verus! {

/// A value owned by the bridge on behalf of the caller.
pub enum OwnedValue {
    /// The primary rows of one encoding.
    Encoding(TokenRows),
    /// The overflow rows materialized for one truncating encode call.
    OverflowRows(Vec<TokenRows>),
    /// The bytes of one decoded text.
    Text(Vec<u8>),
    /// The bytes of every token string of one id-to-token call.
    Tokens(Vec<Vec<u8>>),
}

/// The mathematical model of an owned value.
pub ghost enum OwnedModel {
    Encoding(RowsModel),
    OverflowRows(Seq<RowsModel>),
    Text(Seq<u8>),
    Tokens(Seq<Seq<u8>>),
}

impl View for OwnedValue {
    type V = OwnedModel;

    open spec fn view(&self) -> OwnedModel {
        match self {
            OwnedValue::Encoding(rows) => OwnedModel::Encoding(rows@),
            OwnedValue::OverflowRows(rows) => OwnedModel::OverflowRows(rows_model_seq(rows@)),
            OwnedValue::Text(bytes) => OwnedModel::Text(bytes@),
            OwnedValue::Tokens(tokens) => OwnedModel::Tokens(bytes_model_seq(tokens@)),
        }
    }
}

/// The capsule through which the caller releases one bridge-owned value.
/// Id 0 is the null handle: it owns nothing and releasing it is a no-op.
/// Id `n > 0` names slot `n - 1` of the handle table.
#[derive(Clone, Copy, PartialEq, Eq, Structural)]
pub struct DropHandle {
    pub id: usize,
}

impl DropHandle {
    /// Whether this is the null handle, which owns nothing.
    pub open spec fn spec_is_null(self) -> bool {
        self.id == 0
    }

    /// The null handle.
    pub fn null() -> (r: Self)
        ensures
            r.spec_is_null(),
    {
        DropHandle { id: 0 }
    }

    #[verifier::when_used_as_spec(spec_is_null)]
    pub fn is_null(self) -> (r: bool)
        ensures
            r == self.spec_is_null(),
    {
        self.id == 0
    }
}

/// The table of every allocation the bridge currently owns. A slot is `Some`
/// while its value is live and `None` once its handle has been released.
pub struct HandleTable {
    slots: Vec<Option<OwnedValue>>,
}

/// The model of one slot.
pub open spec fn slot_model(s: Option<OwnedValue>) -> Option<OwnedModel> {
    match s {
        Some(v) => Some(v@),
        None => None,
    }
}

impl View for HandleTable {
    type V = Seq<Option<OwnedModel>>;

    closed spec fn view(&self) -> Seq<Option<OwnedModel>> {
        self.slots@.map_values(|s: Option<OwnedValue>| slot_model(s))
    }
}

/// Whether handle id `id` names a live slot of table `t`.
pub open spec fn live(t: Seq<Option<OwnedModel>>, id: usize) -> bool {
    1 <= id <= t.len() && t[id - 1] is Some
}

/// The table after releasing one handle id: a no-op for the null id, and
/// otherwise the named slot cleared.
pub open spec fn release_one(t: Seq<Option<OwnedModel>>, id: usize) -> Seq<Option<OwnedModel>> {
    if id == 0 {
        t
    } else {
        t.update(id - 1, None)
    }
}

/// The table after releasing a run of handle ids, first to last in the order
/// given.
pub open spec fn release_seq(t: Seq<Option<OwnedModel>>, ids: Seq<usize>) -> Seq<
    Option<OwnedModel>,
>
    decreases ids.len(),
{
    if ids.len() == 0 {
        t
    } else {
        release_seq(release_one(t, ids[0]), ids.drop_first())
    }
}

/// The handle ids of a run of handles, in order.
pub open spec fn ids_of(hs: Seq<DropHandle>) -> Seq<usize> {
    hs.map_values(|h: DropHandle| h.id)
}

impl HandleTable {
    /// A table that owns nothing yet.
    pub fn new() -> (r: Self)
        ensures
            r@ == Seq::<Option<OwnedModel>>::empty(),
    {
        let r = HandleTable { slots: Vec::new() };
        proof {
            assert(r@ =~= Seq::<Option<OwnedModel>>::empty());
        }
        r
    }

    /// How many slots the table has ever allocated (live or released).
    pub fn slot_count(&self) -> (r: usize)
        ensures
            r == self@.len(),
    {
        self.slots.len()
    }

    /// One slot of the table, live or released.
    pub(crate) fn slot_ref(&self, i: usize) -> (r: &Option<OwnedValue>)
        requires
            i < self@.len(),
        ensures
            slot_model(*r) == self@[i as int],
    {
        &self.slots[i]
    }

    /// The primary encoding rows owned by a live slot.
    pub(crate) fn encoding_ref(&self, id: usize) -> (r: &TokenRows)
        requires
            live(self@, id),
            self@[id - 1] matches Some(OwnedModel::Encoding(_)),
        ensures
            Some(OwnedModel::Encoding(r@)) == self@[id - 1],
    {
        match &self.slots[id - 1] {
            Some(OwnedValue::Encoding(rows)) => rows,
            _ => vstd::pervasive::unreached(),
        }
    }

    /// The overflow rows owned by a live slot.
    pub(crate) fn overflow_rows_ref(&self, id: usize) -> (r: &Vec<TokenRows>)
        requires
            live(self@, id),
            self@[id - 1] matches Some(OwnedModel::OverflowRows(_)),
        ensures
            Some(OwnedModel::OverflowRows(rows_model_seq(r@))) == self@[id - 1],
    {
        match &self.slots[id - 1] {
            Some(OwnedValue::OverflowRows(rows)) => rows,
            _ => vstd::pervasive::unreached(),
        }
    }

    /// The text bytes owned by a live slot.
    pub(crate) fn text_ref(&self, id: usize) -> (r: &Vec<u8>)
        requires
            live(self@, id),
            self@[id - 1] matches Some(OwnedModel::Text(_)),
        ensures
            Some(OwnedModel::Text(r@)) == self@[id - 1],
    {
        match &self.slots[id - 1] {
            Some(OwnedValue::Text(bytes)) => bytes,
            _ => vstd::pervasive::unreached(),
        }
    }

    /// The token byte strings owned by a live slot.
    pub(crate) fn tokens_ref(&self, id: usize) -> (r: &Vec<Vec<u8>>)
        requires
            live(self@, id),
            self@[id - 1] matches Some(OwnedModel::Tokens(_)),
        ensures
            Some(OwnedModel::Tokens(bytes_model_seq(r@))) == self@[id - 1],
    {
        match &self.slots[id - 1] {
            Some(OwnedValue::Tokens(tokens)) => tokens,
            _ => vstd::pervasive::unreached(),
        }
    }

    /// Whether a handle may still be released against this table: it is
    /// either null or names a live slot.
    pub fn can_release(&self, handle: DropHandle) -> (r: bool)
        ensures
            r == (handle.id == 0 || live(self@, handle.id)),
    {
        if handle.id == 0 {
            true
        } else if handle.id <= self.slots.len() {
            self.slots[handle.id - 1].is_some()
        } else {
            false
        }
    }
}

impl DropHandle {
    /// Moves a value into the table's next slot and returns the one handle
    /// that owns it.
    pub fn from_value_and_allocate_box(table: &mut HandleTable, value: OwnedValue) -> (h:
        DropHandle)
        ensures
            final(table)@ == old(table)@.push(Some(value@)),
            h.id == old(table)@.len() + 1,
            live(final(table)@, h.id),
            final(table)@[h.id - 1] == Some(value@),
    {
        let ghost v_model = value@;
        table.slots.push(Some(value));
        let id = table.slots.len();
        proof {
            assert(table@ =~= old(table)@.push(Some(v_model)));
        }
        DropHandle { id }
    }
}

/// Releases one handle: a no-op for the null handle, and otherwise the one
/// release of the slot the handle owns.
pub fn free_with_handle(table: &mut HandleTable, handle: DropHandle)
    requires
        handle.id == 0 || live(old(table)@, handle.id),
    ensures
        final(table)@ == release_one(old(table)@, handle.id),
        handle.id == 0 ==> final(table)@ == old(table)@,
{
    if handle.id != 0 {
        let idx = handle.id - 1;
        let slot = vstd::std_specs::vec::vec_index_mut(&mut table.slots, idx);
        *slot = None;
        proof {
            assert(table@ =~= release_one(old(table)@, handle.id));
        }
    }
}

/// Every handle of the run is null or names a live slot of `t`.
pub open spec fn all_releasable(t: Seq<Option<OwnedModel>>, hs: Seq<DropHandle>) -> bool {
    forall|k: int| 0 <= k < hs.len() ==> (#[trigger] hs[k]).id == 0 || live(t, hs[k].id)
}

/// No two non-null handles of the run name the same slot.
pub open spec fn no_duplicate_handles(hs: Seq<DropHandle>) -> bool {
    forall|k1: int, k2: int|
        0 <= k1 < k2 < hs.len() && (#[trigger] hs[k1]).id != 0 ==> hs[k1].id != (
        #[trigger] hs[k2]).id
}

/// Releasing a run of ids and then one more id is the same as releasing the
/// run with that id appended.
pub proof fn lemma_release_seq_snoc(t: Seq<Option<OwnedModel>>, ids: Seq<usize>, id: usize)
    ensures
        release_seq(t, ids.push(id)) == release_one(release_seq(t, ids), id),
    decreases ids.len(),
{
    if ids.len() == 0 {
        assert(ids.push(id)[0] == id);
        assert(ids.push(id).drop_first() =~= Seq::<usize>::empty());
        assert(release_seq(t, ids) == t);
        assert(release_seq(t, ids.push(id)) == release_seq(
            release_one(t, id),
            ids.push(id).drop_first(),
        ));
        assert(release_seq(release_one(t, id), Seq::<usize>::empty()) == release_one(t, id));
    } else {
        let rest = ids.drop_first();
        assert(ids.push(id)[0] == ids[0]);
        assert(ids.push(id).drop_first() =~= rest.push(id));
        assert(release_seq(t, ids.push(id)) == release_seq(
            release_one(t, ids[0]),
            rest.push(id),
        ));
        lemma_release_seq_snoc(release_one(t, ids[0]), rest, id);
        assert(release_seq(t, ids) == release_seq(release_one(t, ids[0]), rest));
    }
}

/// Whether the run of ids names slot `j` (the slot of handle id `j + 1`).
pub open spec fn run_names_slot(ids: Seq<usize>, j: int) -> bool {
    exists|k: int| 0 <= k < ids.len() && #[trigger] ids[k] == j + 1
}

/// What a bulk release leaves behind: the table keeps its length, exactly the
/// slots named by the run are cleared, and every other slot is untouched.
pub proof fn lemma_release_seq_slots(t: Seq<Option<OwnedModel>>, ids: Seq<usize>)
    requires
        forall|k: int| 0 <= k < ids.len() ==> #[trigger] ids[k] <= t.len(),
    ensures
        release_seq(t, ids).len() == t.len(),
        forall|j: int|
            0 <= j < t.len() ==> release_seq(t, ids)[j] == (if run_names_slot(ids, j) {
                None::<OwnedModel>
            } else {
                t[j]
            }),
    decreases ids.len(),
{
    if ids.len() != 0 {
        let first = ids[0];
        let rest = ids.drop_first();
        let t1 = release_one(t, first);
        assert(forall|k: int| 0 <= k < rest.len() ==> #[trigger] rest[k] <= t1.len());
        lemma_release_seq_slots(t1, rest);
        assert forall|j: int| 0 <= j < t.len() implies release_seq(t, ids)[j] == (if run_names_slot(
            ids,
            j,
        ) {
            None::<OwnedModel>
        } else {
            t[j]
        }) by {
            if run_names_slot(rest, j) {
                let k = choose|k: int| 0 <= k < rest.len() && #[trigger] rest[k] == j + 1;
                assert(ids[k + 1] == j + 1);
                assert(run_names_slot(ids, j));
            } else if first == j + 1 {
                assert(run_names_slot(ids, j));
                assert(t1[j] is None);
            } else {
                assert(t1[j] == t[j]);
                if run_names_slot(ids, j) {
                    let k = choose|k: int| 0 <= k < ids.len() && #[trigger] ids[k] == j + 1;
                    assert(k != 0);
                    assert(rest[k - 1] == j + 1);
                    assert(false);
                }
            }
        }
    }
}

/// Handle hygiene law: releasing the null handle is a no-op, whatever the
/// table holds.
pub proof fn lemma_release_null_is_noop(t: Seq<Option<OwnedModel>>)
    ensures
        release_one(t, 0) == t,
{
}

/// Bulk release law: releasing the run `[a, b, c]` at once has the same net
/// effect as releasing `a`, then `b`, then `c`, in that order.
pub proof fn lemma_bulk_release_three(
    t: Seq<Option<OwnedModel>>,
    a: DropHandle,
    b: DropHandle,
    c: DropHandle,
)
    ensures
        release_seq(t, ids_of(seq![a, b, c])) == release_one(
            release_one(release_one(t, a.id), b.id),
            c.id,
        ),
{
    let ids = ids_of(seq![a, b, c]);
    let s1 = ids.drop_first();
    let s2 = s1.drop_first();
    let s3 = s2.drop_first();
    assert(ids =~= seq![a.id, b.id, c.id]);
    assert(s3 =~= Seq::<usize>::empty());
    let t1 = release_one(t, a.id);
    let t2 = release_one(t1, b.id);
    let t3 = release_one(t2, c.id);
    assert(release_seq(t, ids) == release_seq(t1, s1));
    assert(release_seq(t1, s1) == release_seq(t2, s2));
    assert(release_seq(t2, s2) == release_seq(t3, s3));
    assert(release_seq(t3, s3) == t3);
}

/// Releases a run of handles, first to last in the order given. Each handle
/// must be null or live, and no two non-null handles may name the same slot.
pub fn free_with_multiple_handles(table: &mut HandleTable, handles: &NativeBuffer<DropHandle>)
    requires
        all_releasable(old(table)@, handles@),
        no_duplicate_handles(handles@),
    ensures
        final(table)@ == release_seq(old(table)@, ids_of(handles@)),
{
    let n = handles.len();
    let mut i: usize = 0;
    while i < n
        invariant
            n == handles@.len(),
            0 <= i <= n,
            table@ == release_seq(old(table)@, ids_of(handles@).take(i as int)),
            table@.len() == old(table)@.len(),
            no_duplicate_handles(handles@),
            forall|k: int|
                i <= k < n ==> (#[trigger] handles@[k]).id == 0 || live(table@, handles@[k].id),
        decreases n - i,
    {
        let h = *handles.get(i);
        let ghost pre = table@;
        free_with_handle(table, h);
        proof {
            assert(ids_of(handles@).take(i + 1) =~= ids_of(handles@).take(i as int).push(h.id));
            lemma_release_seq_snoc(old(table)@, ids_of(handles@).take(i as int), h.id);
            assert forall|k: int|
                i + 1 <= k < n implies (#[trigger] handles@[k]).id == 0 || live(
                table@,
                handles@[k].id,
            ) by {
                if handles@[k].id != 0 {
                    assert(live(pre, handles@[k].id));
                    if h.id != 0 {
                        assert(handles@[(i as int)].id != handles@[k].id);
                    }
                }
            }
        }
        i += 1;
    }
    proof {
        assert(ids_of(handles@).take(n as int) =~= ids_of(handles@));
    }
}

} // verus!
