//! What an applied flush leaves in the durable store.

use vstd::prelude::*;
use crate::cycle::{insert_ignoring_conflicts, store_after_cycle};
use crate::dedup_laws::{is_first_occurrence, lemma_first_occurrence_kept, lemma_first_seen_distinct};
use crate::flush::{first_seen, has_nickname};
use crate::model::QueueEventView;

verus! {

/// No two rows share a nickname.
pub open spec fn nicknames_distinct(rows: Seq<QueueEventView>) -> bool {
    forall|i: int, j: int|
        0 <= i < j < rows.len() ==> (#[trigger] rows[i]).payload.nickname != (
        #[trigger] rows[j]).payload.nickname
}

/// Inserting keeps every stored row in its place.
pub proof fn lemma_insert_keeps_store(store: Seq<QueueEventView>, rows: Seq<QueueEventView>)
    ensures
        insert_ignoring_conflicts(store, rows).len() >= store.len(),
        forall|i: int|
            0 <= i < store.len() ==> (#[trigger] insert_ignoring_conflicts(store, rows)[i])
                == store[i],
    decreases rows.len(),
{
    if rows.len() > 0 {
        lemma_insert_keeps_store(store, rows.drop_last());
    }
}

/// After inserting, the store holds the nicknames it held and those of the
/// rows, and no others.
pub proof fn lemma_insert_nicknames(
    store: Seq<QueueEventView>,
    rows: Seq<QueueEventView>,
    nickname: Seq<char>,
)
    ensures
        has_nickname(insert_ignoring_conflicts(store, rows), nickname) == (has_nickname(
            store,
            nickname,
        ) || has_nickname(rows, nickname)),
    decreases rows.len(),
{
    if rows.len() > 0 {
        let rest = rows.drop_last();
        let before = insert_ignoring_conflicts(store, rest);
        let last = rows.last();
        let out = insert_ignoring_conflicts(store, rows);
        lemma_insert_nicknames(store, rest, nickname);
        if has_nickname(out, nickname) {
            let j = choose|j: int| 0 <= j < out.len() && (#[trigger] out[j]).payload.nickname == nickname;
            if j < before.len() {
                assert(before[j].payload.nickname == nickname);
                if has_nickname(rest, nickname) {
                    let i = choose|i: int| 0 <= i < rest.len() && (#[trigger] rest[i]).payload.nickname == nickname;
                    assert(rows[i].payload.nickname == nickname);
                }
            } else {
                assert(rows[rows.len() - 1].payload.nickname == nickname);
            }
        }
        if has_nickname(before, nickname) {
            let j = choose|j: int| 0 <= j < before.len() && (#[trigger] before[j]).payload.nickname == nickname;
            assert(out[j].payload.nickname == nickname);
        }
        if has_nickname(rows, nickname) {
            let i = choose|i: int| 0 <= i < rows.len() && (#[trigger] rows[i]).payload.nickname == nickname;
            if i < rest.len() {
                assert(rest[i].payload.nickname == nickname);
            } else if !has_nickname(before, last.payload.nickname) {
                assert(out[out.len() - 1].payload.nickname == nickname);
            }
        }
    }
}

/// A store without duplicate nicknames stays so.
pub proof fn lemma_insert_distinct(store: Seq<QueueEventView>, rows: Seq<QueueEventView>)
    requires
        nicknames_distinct(store),
    ensures
        nicknames_distinct(insert_ignoring_conflicts(store, rows)),
    decreases rows.len(),
{
    if rows.len() > 0 {
        let rest = rows.drop_last();
        let before = insert_ignoring_conflicts(store, rest);
        let out = insert_ignoring_conflicts(store, rows);
        lemma_insert_distinct(store, rest);
        assert forall|i: int, j: int| 0 <= i < j < out.len() implies (#[trigger] out[i]).payload.nickname != (
        #[trigger] out[j]).payload.nickname by {
            if j < before.len() {
                assert(out[i] == before[i] && out[j] == before[j]);
            } else {
                assert(out[i] == before[i]);
                assert(!has_nickname(before, rows.last().payload.nickname));
            }
        }
    }
}

/// The first row that carries a nickname unknown to the store is inserted.
pub proof fn lemma_insert_first_occurrence(
    store: Seq<QueueEventView>,
    rows: Seq<QueueEventView>,
    k: int,
) -> (j: int)
    requires
        is_first_occurrence(rows, k),
        !has_nickname(store, rows[k].payload.nickname),
    ensures
        0 <= j < insert_ignoring_conflicts(store, rows).len(),
        insert_ignoring_conflicts(store, rows)[j] == rows[k],
    decreases rows.len(),
{
    let rest = rows.drop_last();
    let before = insert_ignoring_conflicts(store, rest);
    if k == rows.len() - 1 {
        lemma_insert_nicknames(store, rest, rows[k].payload.nickname);
        if has_nickname(rest, rows[k].payload.nickname) {
            let i = choose|i: int| 0 <= i < rest.len() && (#[trigger] rest[i]).payload.nickname == rows[k].payload.nickname;
            assert(rows[i].payload.nickname == rows[k].payload.nickname);
        }
        before.len() as int
    } else {
        assert forall|i: int| 0 <= i < k implies (#[trigger] rest[i]).payload.nickname != rest[k].payload.nickname by {
            assert(rows[i].payload.nickname != rows[k].payload.nickname);
        }
        lemma_insert_first_occurrence(store, rest, k)
    }
}

/// After an applied flush, a nickname that the store did not hold has exactly
/// one row there: that of the first event of the batch that carried it.
pub proof fn law_applied_flush_stores_first_seen(
    store: Seq<QueueEventView>,
    batch: Seq<QueueEventView>,
    k: int,
) -> (j: int)
    requires
        nicknames_distinct(store),
        is_first_occurrence(batch, k),
        !has_nickname(store, batch[k].payload.nickname),
    ensures
        0 <= j < store_after_cycle(store, batch, true).len(),
        store_after_cycle(store, batch, true)[j] == batch[k],
        forall|other: int|
            0 <= other < store_after_cycle(store, batch, true).len() && other != j ==> (
            #[trigger] store_after_cycle(store, batch, true)[other]).payload.nickname
                != batch[k].payload.nickname,
{
    let kept = first_seen(batch);
    let at = lemma_first_occurrence_kept(batch, k);
    lemma_first_seen_distinct(batch);
    assert forall|i: int| 0 <= i < at implies (#[trigger] kept[i]).payload.nickname != kept[at].payload.nickname by {
        assert(kept[i].payload.nickname != kept[at].payload.nickname);
    }
    let j = lemma_insert_first_occurrence(store, kept, at);
    lemma_insert_distinct(store, kept);
    let out = store_after_cycle(store, batch, true);
    assert forall|other: int| 0 <= other < out.len() && other != j implies (#[trigger] out[other]).payload.nickname
        != batch[k].payload.nickname by {
        if other < j {
            assert(out[other].payload.nickname != out[j].payload.nickname);
        } else {
            assert(out[j].payload.nickname != out[other].payload.nickname);
        }
    }
    j
}

/// Deduplicating a batch is inserting it into an empty store.
pub proof fn law_first_seen_is_insert_into_empty(batch: Seq<QueueEventView>)
    ensures
        first_seen(batch) == insert_ignoring_conflicts(Seq::empty(), batch),
    decreases batch.len(),
{
    if batch.len() > 0 {
        law_first_seen_is_insert_into_empty(batch.drop_last());
    }
}

/// A row that the store already holds under a nickname wins over the batch:
/// an applied flush leaves it in place.
pub proof fn law_stored_row_survives_flush(
    store: Seq<QueueEventView>,
    batch: Seq<QueueEventView>,
    i: int,
)
    requires
        0 <= i < store.len(),
    ensures
        i < store_after_cycle(store, batch, true).len(),
        store_after_cycle(store, batch, true)[i] == store[i],
{
    lemma_insert_keeps_store(store, first_seen(batch));
}

} // verus!
