//! Managers deciding on shift requests. Validating a request refuses every
//! other request for the same block (same service, kind of period and first
//! day).
//!
//! The decision runs against the database in three steps, each of which
//! this module decides from what the previous one gave back: the status of
//! the request is written; when it is `Validée`, the block of the request is
//! read back; when it was found, every other request of that block is set to
//! `Refusée`.
use vstd::prelude::*;
use crate::reply::{is_reply, reply, TextReply, INTERNAL_SERVER_ERROR, OK};
use crate::text::same_text;

verus! {

/// Body of a request by which a manager sets the status of a shift request.
#[derive(Clone, Debug, PartialEq, Eq)]
pub struct UpdateShiftRequest {
    pub request_id: i64,
    pub new_status: String,
}

/// The status of a validated request.
pub open spec fn validated_status() -> Seq<char> {
    "Validée"@
}

/// The status of a refused request.
pub open spec fn refused_status() -> Seq<char> {
    "Refusée"@
}

/// The block of a shift request: its service, kind of period and first day.
#[derive(Clone, Debug)]
pub struct ShiftBlock {
    pub service_id: i64,
    pub period_type: String,
    pub start_date: String,
}

/// The first write: set the status of one request.
#[derive(Clone, Debug)]
pub struct StatusWrite {
    pub request_id: i64,
    pub status: String,
}

/// The last write: set every request of `block` but `kept_request_id` to
/// `Refusée`.
#[derive(Clone, Debug)]
pub struct BlockRefusal {
    pub block: ShiftBlock,
    pub kept_request_id: i64,
}

/// What follows the first write.
#[derive(Clone, Debug)]
pub enum AfterStatusWrite {
    /// Answer the manager; nothing more is done.
    Answer(TextReply),
    /// Read back the block of this request.
    ReadBlock(i64),
}

/// What follows reading back the block.
#[derive(Clone, Debug)]
pub enum AfterBlockRead {
    /// Answer the manager; nothing more is done.
    Answer(TextReply),
    /// Refuse the rest of the block.
    Refuse(BlockRefusal),
}

/// The answer to every update that went through.
pub open spec fn update_done(r: TextReply) -> bool {
    is_reply(r, OK, "Statut mis à jour avec succès"@)
}

/// What follows the first write, which went through (`written`) or failed:
/// `500` with `Erreur BDD` when it failed; reading back the block when the
/// new status is `Validée`; the answer that the update is done otherwise.
pub open spec fn status_write_decided(
    payload: UpdateShiftRequest,
    written: bool,
    next: AfterStatusWrite,
) -> bool {
    if !written {
        next matches AfterStatusWrite::Answer(r) && is_reply(r, INTERNAL_SERVER_ERROR, "Erreur BDD"@)
    } else if payload.new_status@ == validated_status() {
        next == AfterStatusWrite::ReadBlock(payload.request_id)
    } else {
        next matches AfterStatusWrite::Answer(r) && update_done(r)
    }
}

/// What follows reading back the block (`None` when no row was found or the
/// read failed): refusing the rest of the block when it was found, the
/// answer that the update is done otherwise.
pub open spec fn block_read_decided(
    payload: UpdateShiftRequest,
    block: Option<ShiftBlock>,
    next: AfterBlockRead,
) -> bool {
    match block {
        Some(b) => next == AfterBlockRead::Refuse(
            BlockRefusal { block: b, kept_request_id: payload.request_id },
        ),
        None => next matches AfterBlockRead::Answer(r) && update_done(r),
    }
}

/// The first write of an update: the new status of the request.
pub fn status_write(payload: &UpdateShiftRequest) -> (w: StatusWrite)
    ensures
        w.request_id == payload.request_id,
        w.status == payload.new_status,
{
    StatusWrite { request_id: payload.request_id, status: payload.new_status.clone() }
}

/// Decides what follows the first write.
pub fn after_status_write(payload: &UpdateShiftRequest, written: bool) -> (next: AfterStatusWrite)
    ensures
        status_write_decided(*payload, written, next),
{
    if !written {
        return AfterStatusWrite::Answer(reply(INTERNAL_SERVER_ERROR, "Erreur BDD"));
    }
    if same_text(payload.new_status.as_str(), "Validée") {
        AfterStatusWrite::ReadBlock(payload.request_id)
    } else {
        AfterStatusWrite::Answer(reply(OK, "Statut mis à jour avec succès"))
    }
}

/// Decides what follows reading back the block.
pub fn after_block_read(payload: &UpdateShiftRequest, block: Option<ShiftBlock>) -> (next:
    AfterBlockRead)
    ensures
        block_read_decided(*payload, block, next),
{
    match block {
        Some(b) => AfterBlockRead::Refuse(
            BlockRefusal { block: b, kept_request_id: payload.request_id },
        ),
        None => AfterBlockRead::Answer(reply(OK, "Statut mis à jour avec succès")),
    }
}

/// The answer once the rest of the block has been refused; whether that
/// write went through does not change it.
pub fn after_refusal() -> (r: TextReply)
    ensures
        update_done(r),
{
    reply(OK, "Statut mis à jour avec succès")
}

// --- What the writes and the read do to the table of shift requests ---

/// A row of the table `shift_requests` (a stored `ShiftRequest`), its text
/// fields by their characters.
pub struct ShiftRow {
    pub request_id: i64,
    pub user_id: i64,
    pub service_id: i64,
    pub period_type: Seq<char>,
    pub start_date: Seq<char>,
    pub status: Seq<char>,
}

/// Whether a row belongs to a block.
pub open spec fn in_block(r: ShiftRow, b: ShiftBlock) -> bool {
    &&& r.service_id == b.service_id
    &&& r.period_type == b.period_type@
    &&& r.start_date == b.start_date@
}

/// The request identifiers of the table are distinct (its primary key).
pub open spec fn ids_distinct(t: Seq<ShiftRow>) -> bool {
    forall|i: int, j: int|
        0 <= i < t.len() && 0 <= j < t.len() && i != j ==> t[i].request_id != t[j].request_id
}

/// The table holds a row for the request.
pub open spec fn holds_request(t: Seq<ShiftRow>, request_id: i64) -> bool {
    exists|i: int| 0 <= i < t.len() && t[i].request_id == request_id
}

/// `UPDATE shift_requests SET status = ? WHERE request_id = ?`
pub open spec fn apply_status_write(t: Seq<ShiftRow>, w: StatusWrite) -> Seq<ShiftRow> {
    t.map_values(
        |r: ShiftRow|
            if r.request_id == w.request_id {
                ShiftRow { status: w.status@, ..r }
            } else {
                r
            },
    )
}

/// Row `i` is the first row of the table (in its stored order) for the
/// request, and belongs to block `b`.
pub open spec fn first_row_in_block(t: Seq<ShiftRow>, request_id: i64, b: ShiftBlock, i: int) -> bool {
    &&& 0 <= i < t.len()
    &&& t[i].request_id == request_id
    &&& forall|j: int| 0 <= j < i ==> t[j].request_id != request_id
    &&& in_block(t[i], b)
}

/// `SELECT service_id, period_type, start_date FROM shift_requests WHERE
/// request_id = ?` read with `fetch_optional`, as a block: whether it is
/// that of the first row found, the table taken in its stored order.
pub open spec fn block_read_gives(t: Seq<ShiftRow>, request_id: i64, b: ShiftBlock) -> bool {
    exists|i: int| #[trigger] first_row_in_block(t, request_id, b, i)
}

/// `UPDATE shift_requests SET status = 'Refusée' WHERE service_id = ? AND
/// period_type = ? AND start_date = ? AND request_id != ?`
pub open spec fn apply_refusal(t: Seq<ShiftRow>, f: BlockRefusal) -> Seq<ShiftRow> {
    t.map_values(
        |r: ShiftRow|
            if in_block(r, f.block) && r.request_id != f.kept_request_id {
                ShiftRow { status: refused_status(), ..r }
            } else {
                r
            },
    )
}

/// Validating a request, against a table whose writes go through and whose
/// read gives back the block of the request, ends with that request
/// validated, every other request of its block refused, and every request
/// outside the block as it was; so the request is the only validated one of
/// its block.
pub proof fn law_validation_refuses_rest_of_block(
    t: Seq<ShiftRow>,
    payload: UpdateShiftRequest,
    first: AfterStatusWrite,
    block: ShiftBlock,
    second: AfterBlockRead,
)
    requires
        ids_distinct(t),
        holds_request(t, payload.request_id),
        payload.new_status@ == validated_status(),
        status_write_decided(payload, true, first),
        block_read_gives(
            apply_status_write(
                t,
                StatusWrite { request_id: payload.request_id, status: payload.new_status },
            ),
            payload.request_id,
            block,
        ),
        block_read_decided(payload, Some(block), second),
    ensures
        first == AfterStatusWrite::ReadBlock(payload.request_id),
        second matches AfterBlockRead::Refuse(f) && ({
            let end = apply_refusal(
                apply_status_write(
                    t,
                    StatusWrite { request_id: payload.request_id, status: payload.new_status },
                ),
                f,
            );
            &&& end.len() == t.len()
            &&& forall|i: int|
                0 <= i < t.len() ==> (#[trigger] end[i]).request_id == t[i].request_id
            &&& forall|i: int|
                0 <= i < t.len() && t[i].request_id == payload.request_id ==> (
                #[trigger] end[i]).status == validated_status() && in_block(t[i], block)
            &&& forall|i: int|
                0 <= i < t.len() && t[i].request_id != payload.request_id && in_block(t[i], block)
                    ==> (#[trigger] end[i]).status == refused_status()
            &&& forall|i: int|
                0 <= i < t.len() && !in_block(t[i], block) ==> #[trigger] end[i] == t[i]
            &&& forall|i: int|
                0 <= i < t.len() && in_block(end[i], block) && (#[trigger] end[i]).status
                    == validated_status() ==> end[i].request_id == payload.request_id
        }),
{
    let w = StatusWrite { request_id: payload.request_id, status: payload.new_status };
    let t1 = apply_status_write(t, w);
    let f = BlockRefusal { block, kept_request_id: payload.request_id };
    let end = apply_refusal(t1, f);
    assert(t1.len() == t.len());
    lemma_statuses_differ();
    let k = choose|k: int| first_row_in_block(t1, payload.request_id, block, k);
    assert forall|i: int| 0 <= i < t.len() && t[i].request_id == payload.request_id implies (
    #[trigger] end[i]).status == validated_status() && in_block(t[i], block) by {
        assert(i == k);
    }
}

/// A status other than `Validée` touches no request but the one named:
/// nothing is read back and nothing else is written.
pub proof fn law_other_status_touches_one_request(
    payload: UpdateShiftRequest,
    written: bool,
    next: AfterStatusWrite,
)
    requires
        payload.new_status@ != validated_status(),
        status_write_decided(payload, written, next),
    ensures
        next is Answer,
{
}


/// Two rows belong to the same block.
pub open spec fn same_block(a: ShiftRow, b: ShiftRow) -> bool {
    &&& a.service_id == b.service_id
    &&& a.period_type == b.period_type
    &&& a.start_date == b.start_date
}

/// Every block holds at most one validated request.
pub open spec fn one_validated_per_block(t: Seq<ShiftRow>) -> bool {
    forall|i: int, j: int|
        #![trigger t[i], t[j]]
        0 <= i < t.len() && 0 <= j < t.len() && i != j && same_block(t[i], t[j])
            && t[i].status == validated_status() ==> t[j].status != validated_status()
}

/// What the read of the block gives back: the block of the request's row,
/// or nothing when the table holds no row for it.
pub open spec fn block_read_result(t: Seq<ShiftRow>, request_id: i64, block: Option<ShiftBlock>) -> bool {
    match block {
        Some(b) => block_read_gives(t, request_id, b),
        None => !holds_request(t, request_id),
    }
}

/// The first write of an update, as `status_write` makes it.
pub open spec fn write_of(payload: UpdateShiftRequest) -> StatusWrite {
    StatusWrite { request_id: payload.request_id, status: payload.new_status }
}

/// An update ran against `t` with every write going through and the read
/// giving back what the table holds: `first` is what followed the first
/// write, `block` what the read gave, `second` what followed the read.
pub open spec fn update_ran(
    t: Seq<ShiftRow>,
    payload: UpdateShiftRequest,
    first: AfterStatusWrite,
    block: Option<ShiftBlock>,
    second: AfterBlockRead,
) -> bool {
    &&& status_write_decided(payload, true, first)
    &&& first is ReadBlock ==> {
        &&& block_read_result(apply_status_write(t, write_of(payload)), payload.request_id, block)
        &&& block_read_decided(payload, block, second)
    }
}

/// The table once such an update has run.
pub open spec fn table_after_update(
    t: Seq<ShiftRow>,
    payload: UpdateShiftRequest,
    first: AfterStatusWrite,
    second: AfterBlockRead,
) -> Seq<ShiftRow> {
    let t1 = apply_status_write(t, write_of(payload));
    match first {
        AfterStatusWrite::ReadBlock(_) => match second {
            AfterBlockRead::Refuse(f) => apply_refusal(t1, f),
            AfterBlockRead::Answer(_) => t1,
        },
        AfterStatusWrite::Answer(_) => t1,
    }
}

/// Such an update answers that it is done: directly, or through
/// `after_refusal` once the rest of the block has been refused.
pub open spec fn update_answered_done(first: AfterStatusWrite, second: AfterBlockRead) -> bool {
    match first {
        AfterStatusWrite::Answer(r) => update_done(r),
        AfterStatusWrite::ReadBlock(_) => match second {
            AfterBlockRead::Answer(r) => update_done(r),
            AfterBlockRead::Refuse(_) => true,
        },
    }
}

proof fn lemma_statuses_differ()
    ensures
        validated_status() != refused_status(),
{
    reveal_strlit("Validée");
    reveal_strlit("Refusée");
    assert(validated_status()[0] != refused_status()[0]);
}

proof fn lemma_write_rows(t: Seq<ShiftRow>, w: StatusWrite)
    ensures
        apply_status_write(t, w).len() == t.len(),
        forall|i: int|
            0 <= i < t.len() ==> {
                let r = #[trigger] apply_status_write(t, w)[i];
                &&& r.request_id == t[i].request_id
                &&& r.user_id == t[i].user_id
                &&& same_block(r, t[i])
                &&& r.status == if t[i].request_id == w.request_id {
                    w.status@
                } else {
                    t[i].status
                }
            },
{
}

proof fn lemma_refusal_rows(t: Seq<ShiftRow>, f: BlockRefusal)
    ensures
        apply_refusal(t, f).len() == t.len(),
        forall|i: int|
            0 <= i < t.len() ==> {
                let r = #[trigger] apply_refusal(t, f)[i];
                &&& r.request_id == t[i].request_id
                &&& r.user_id == t[i].user_id
                &&& same_block(r, t[i])
                &&& r.status == if in_block(t[i], f.block) && t[i].request_id != f.kept_request_id {
                    refused_status()
                } else {
                    t[i].status
                }
            },
{
}

/// Every status update whose writes go through keeps every block with at
/// most one validated request, and keeps the request identifiers; when it
/// validates a request that the table holds, that request is validated and
/// every other request of its block refused.
pub proof fn law_update_keeps_one_validated_per_block(
    t: Seq<ShiftRow>,
    payload: UpdateShiftRequest,
    first: AfterStatusWrite,
    block: Option<ShiftBlock>,
    second: AfterBlockRead,
)
    requires
        ids_distinct(t),
        one_validated_per_block(t),
        update_ran(t, payload, first, block, second),
    ensures
        ({
            let end = table_after_update(t, payload, first, second);
            &&& end.len() == t.len()
            &&& forall|i: int| 0 <= i < t.len() ==> (#[trigger] end[i]).request_id == t[i].request_id
            &&& ids_distinct(end)
            &&& one_validated_per_block(end)
            &&& payload.new_status@ == validated_status() && holds_request(t, payload.request_id)
                ==> forall|i: int|
                0 <= i < t.len() ==> {
                    &&& t[i].request_id == payload.request_id ==> (#[trigger] end[i]).status
                        == validated_status()
                    &&& t[i].request_id != payload.request_id && (exists|k: int|
                        0 <= k < t.len() && t[k].request_id == payload.request_id
                            && same_block(t[k], t[i])) ==> end[i].status == refused_status()
                }
        }),
        update_answered_done(first, second),
{
    lemma_statuses_differ();
    let w = write_of(payload);
    let t1 = apply_status_write(t, w);
    lemma_write_rows(t, w);
    let end = table_after_update(t, payload, first, second);
    if payload.new_status@ != validated_status() {
        assert(end == t1);
        assert forall|i: int, j: int|
            #![trigger end[i], end[j]]
            0 <= i < end.len() && 0 <= j < end.len() && i != j && same_block(end[i], end[j])
                && end[i].status == validated_status() implies end[j].status
            != validated_status() by {
            assert(t1[i] == end[i]);
            assert(t1[j] == end[j]);
            if end[j].status == validated_status() {
                assert(t[i].status == validated_status());
                assert(t[j].status == validated_status());
                assert(same_block(t[i], t[j]));
            }
        }
    } else if !holds_request(t1, payload.request_id) {
        assert(first == AfterStatusWrite::ReadBlock(payload.request_id));
        assert(block is None) by {
            if block is Some {
                let b = block->0;
                let k = choose|k: int| first_row_in_block(t1, payload.request_id, b, k);
                assert(holds_request(t1, payload.request_id));
            }
        }
        assert(end == t1);
        assert forall|i: int, j: int|
            #![trigger end[i], end[j]]
            0 <= i < end.len() && 0 <= j < end.len() && i != j && same_block(end[i], end[j])
                && end[i].status == validated_status() implies end[j].status
            != validated_status() by {
            assert(t1[i] == end[i]);
            assert(t1[j] == end[j]);
            assert(t[i].request_id != payload.request_id) by {
                if t[i].request_id == payload.request_id {
                    assert(t1[i].request_id == payload.request_id);
                }
            }
            assert(t[j].request_id != payload.request_id) by {
                if t[j].request_id == payload.request_id {
                    assert(t1[j].request_id == payload.request_id);
                }
            }
        }
        assert(!holds_request(t, payload.request_id)) by {
            if holds_request(t, payload.request_id) {
                let k = choose|k: int| 0 <= k < t.len() && t[k].request_id == payload.request_id;
                assert(t1[k].request_id == payload.request_id);
            }
        }
    } else {
        assert(first == AfterStatusWrite::ReadBlock(payload.request_id));
        let b = choose|b: ShiftBlock| block == Some(b);
        assert(block == Some(b)) by {
            if block is None {
                assert(holds_request(t1, payload.request_id));
            }
        }
        let f = BlockRefusal { block: b, kept_request_id: payload.request_id };
        assert(second == AfterBlockRead::Refuse(f));
        assert(end == apply_refusal(t1, f));
        lemma_refusal_rows(t1, f);
        let k = choose|k: int| first_row_in_block(t1, payload.request_id, b, k);
        assert forall|i: int| 0 <= i < t.len() && in_block(t1[i], b) implies same_block(t[i], t[k]) by {}
        assert forall|i: int, j: int|
            #![trigger end[i], end[j]]
            0 <= i < end.len() && 0 <= j < end.len() && i != j && same_block(end[i], end[j])
                && end[i].status == validated_status() implies end[j].status
            != validated_status() by {
            if in_block(t1[i], b) {
                assert(in_block(t1[j], b));
                if t1[i].request_id == payload.request_id {
                    assert(t1[j].request_id != payload.request_id);
                } else {
                    assert(end[i].status == refused_status());
                }
            } else {
                assert(!in_block(t1[j], b));
                assert(end[i] == t1[i]);
                assert(end[j] == t1[j]);
                assert(t[i].request_id != payload.request_id) by {
                    if t[i].request_id == payload.request_id {
                        assert(i == k);
                    }
                }
                assert(t[j].request_id != payload.request_id) by {
                    if t[j].request_id == payload.request_id {
                        assert(j == k);
                    }
                }
                if end[j].status == validated_status() {
                    assert(same_block(t[i], t[j]));
                }
            }
        }
        assert forall|i: int|
            0 <= i < t.len() && t[i].request_id != payload.request_id && (exists|k2: int|
                0 <= k2 < t.len() && t[k2].request_id == payload.request_id && same_block(
                    t[k2],
                    t[i],
                )) implies (#[trigger] end[i]).status == refused_status() by {
            let k2 = choose|k2: int|
                0 <= k2 < t.len() && t[k2].request_id == payload.request_id && same_block(t[k2], t[i]);
            assert(k2 == k);
            assert(in_block(t1[i], b));
        }
    }
}

/// Running the same update a second time, with every write going through,
/// whatever the table holds (even a request identifier twice),
/// leaves the table as the first run left it, and answers as it did.
pub proof fn law_update_is_idempotent(
    t: Seq<ShiftRow>,
    payload: UpdateShiftRequest,
    first: AfterStatusWrite,
    block: Option<ShiftBlock>,
    second: AfterBlockRead,
    again_first: AfterStatusWrite,
    again_block: Option<ShiftBlock>,
    again_second: AfterBlockRead,
)
    requires
        update_ran(t, payload, first, block, second),
        update_ran(
            table_after_update(t, payload, first, second),
            payload,
            again_first,
            again_block,
            again_second,
        ),
    ensures
        table_after_update(table_after_update(t, payload, first, second), payload, again_first, again_second)
            == table_after_update(t, payload, first, second),
        update_answered_done(first, second),
        update_answered_done(again_first, again_second),
{
    lemma_statuses_differ();
    let w = write_of(payload);
    let t1 = apply_status_write(t, w);
    lemma_write_rows(t, w);
    let end = table_after_update(t, payload, first, second);
    let e1 = apply_status_write(end, w);
    lemma_write_rows(end, w);
    let end2 = table_after_update(end, payload, again_first, again_second);
    if payload.new_status@ != validated_status() {
        assert(end == t1);
        assert(end2 == e1);
        assert(e1 =~= end);
    } else if !holds_request(t1, payload.request_id) {
        assert(block is None) by {
            if block is Some {
                let b = block->0;
                let k = choose|k: int| first_row_in_block(t1, payload.request_id, b, k);
            }
        }
        assert(end == t1);
        assert(e1 =~= end);
        assert(again_block is None) by {
            if again_block is Some {
                let b = again_block->0;
                let k = choose|k: int| first_row_in_block(e1, payload.request_id, b, k);
                assert(t1[k].request_id == payload.request_id);
            }
        }
        assert(end2 == e1);
    } else {
        let b = choose|b: ShiftBlock| block == Some(b);
        assert(block == Some(b)) by {
            if block is None {
                assert(holds_request(t1, payload.request_id));
            }
        }
        let f = BlockRefusal { block: b, kept_request_id: payload.request_id };
        assert(end == apply_refusal(t1, f));
        lemma_refusal_rows(t1, f);
        let k = choose|k: int| first_row_in_block(t1, payload.request_id, b, k);
        assert(e1 =~= end) by {
            assert forall|i: int| 0 <= i < end.len() implies #[trigger] e1[i] == end[i] by {
                if end[i].request_id == payload.request_id {
                    assert(end[i] == t1[i]);
                    assert(t1[i].status == payload.new_status@);
                }
            }
        }
        assert(holds_request(e1, payload.request_id)) by {
            assert(e1[k].request_id == payload.request_id);
        }
        let b2 = choose|b2: ShiftBlock| again_block == Some(b2);
        assert(again_block == Some(b2)) by {
            if again_block is None {
                assert(e1[k].request_id == payload.request_id);
            }
        }
        let f2 = BlockRefusal { block: b2, kept_request_id: payload.request_id };
        assert(end2 == apply_refusal(e1, f2));
        lemma_refusal_rows(e1, f2);
        let k2 = choose|k2: int| first_row_in_block(e1, payload.request_id, b2, k2);
        assert(k2 == k) by {
            assert(t1[k2].request_id == payload.request_id);
            assert(e1[k].request_id == payload.request_id);
            if k2 < k {
                assert(t1[k2].request_id != payload.request_id);
            } else if k < k2 {
                assert(e1[k].request_id != payload.request_id);
            }
        }
        assert(end2 =~= end) by {
            assert forall|i: int| 0 <= i < end.len() implies #[trigger] end2[i] == end[i] by {
                assert(in_block(e1[i], b2) == in_block(t1[i], b));
            }
        }
    }
}

} // verus!
