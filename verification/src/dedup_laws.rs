//! What intra-batch deduplication guarantees.

use vstd::prelude::*;
use crate::flush::{first_seen, has_nickname};
use crate::model::QueueEventView;

verus! {

/// No event before position `k` carries the nickname of the event at `k`.
pub open spec fn is_first_occurrence(batch: Seq<QueueEventView>, k: int) -> bool {
    &&& 0 <= k < batch.len()
    &&& forall|i: int| 0 <= i < k ==> (#[trigger] batch[i]).payload.nickname != batch[k].payload.nickname
}

/// Deduplication neither invents nor loses a nickname.
pub proof fn lemma_first_seen_nicknames(batch: Seq<QueueEventView>, nickname: Seq<char>)
    ensures
        has_nickname(first_seen(batch), nickname) == has_nickname(batch, nickname),
    decreases batch.len(),
{
    if batch.len() > 0 {
        let rest = batch.drop_last();
        let kept = first_seen(rest);
        let last = batch.last();
        let out = first_seen(batch);
        lemma_first_seen_nicknames(rest, nickname);
        lemma_first_seen_nicknames(rest, last.payload.nickname);
        if has_nickname(out, nickname) {
            let j = choose|j: int| 0 <= j < out.len() && (#[trigger] out[j]).payload.nickname == nickname;
            if j < kept.len() {
                assert(kept[j].payload.nickname == nickname);
                let i = choose|i: int| 0 <= i < rest.len() && (#[trigger] rest[i]).payload.nickname == nickname;
                assert(batch[i].payload.nickname == nickname);
            } else {
                assert(batch[batch.len() - 1].payload.nickname == nickname);
            }
        }
        if has_nickname(batch, nickname) {
            let i = choose|i: int| 0 <= i < batch.len() && (#[trigger] batch[i]).payload.nickname == nickname;
            if i < rest.len() {
                assert(rest[i].payload.nickname == nickname);
                let j = choose|j: int| 0 <= j < kept.len() && (#[trigger] kept[j]).payload.nickname == nickname;
                assert(out[j].payload.nickname == nickname);
            } else if has_nickname(kept, last.payload.nickname) {
            } else {
                assert(out[out.len() - 1].payload.nickname == nickname);
            }
        }
    }
}

/// No two kept events share a nickname.
pub proof fn lemma_first_seen_distinct(batch: Seq<QueueEventView>)
    ensures
        forall|i: int, j: int|
            0 <= i < j < first_seen(batch).len() ==> (#[trigger] first_seen(batch)[i]).payload.nickname != (
            #[trigger] first_seen(batch)[j]).payload.nickname,
    decreases batch.len(),
{
    if batch.len() > 0 {
        let rest = batch.drop_last();
        let kept = first_seen(rest);
        let out = first_seen(batch);
        lemma_first_seen_distinct(rest);
        assert forall|i: int, j: int| 0 <= i < j < out.len() implies (#[trigger] out[i]).payload.nickname != (
        #[trigger] out[j]).payload.nickname by {
            if j < kept.len() {
                assert(out[i] == kept[i] && out[j] == kept[j]);
            } else {
                assert(out[i] == kept[i]);
                assert(!has_nickname(kept, batch.last().payload.nickname));
            }
        }
    }
}

/// The first event that carries a nickname is kept.
pub proof fn lemma_first_occurrence_kept(batch: Seq<QueueEventView>, k: int) -> (j: int)
    requires
        is_first_occurrence(batch, k),
    ensures
        0 <= j < first_seen(batch).len(),
        first_seen(batch)[j] == batch[k],
    decreases batch.len(),
{
    let rest = batch.drop_last();
    let kept = first_seen(rest);
    if k == batch.len() - 1 {
        lemma_first_seen_nicknames(rest, batch[k].payload.nickname);
        if has_nickname(rest, batch[k].payload.nickname) {
            let i = choose|i: int| 0 <= i < rest.len() && (#[trigger] rest[i]).payload.nickname == batch[k].payload.nickname;
            assert(batch[i].payload.nickname == batch[k].payload.nickname);
        }
        kept.len() as int
    } else {
        assert forall|i: int| 0 <= i < k implies (#[trigger] rest[i]).payload.nickname != rest[k].payload.nickname by {
            assert(batch[i].payload.nickname != batch[k].payload.nickname);
        }
        let j = lemma_first_occurrence_kept(rest, k);
        j
    }
}

/// Of the events of a batch that share a nickname, exactly one is kept, and
/// it is the one that was drained first.
pub proof fn law_duplicates_collapse_to_first(batch: Seq<QueueEventView>, k: int) -> (j: int)
    requires
        is_first_occurrence(batch, k),
    ensures
        0 <= j < first_seen(batch).len(),
        first_seen(batch)[j] == batch[k],
        forall|other: int|
            0 <= other < first_seen(batch).len() && other != j ==> (#[trigger] first_seen(
                batch,
            )[other]).payload.nickname != batch[k].payload.nickname,
{
    let j = lemma_first_occurrence_kept(batch, k);
    lemma_first_seen_distinct(batch);
    let out = first_seen(batch);
    assert forall|other: int| 0 <= other < out.len() && other != j implies (#[trigger] out[other]).payload.nickname
        != batch[k].payload.nickname by {
        if other < j {
            assert(out[other].payload.nickname != out[j].payload.nickname);
        } else {
            assert(out[j].payload.nickname != out[other].payload.nickname);
        }
    }
    j
}

/// Every event of a batch is represented: some kept event carries its
/// nickname.
pub proof fn law_every_nickname_kept(batch: Seq<QueueEventView>, k: int)
    requires
        0 <= k < batch.len(),
    ensures
        has_nickname(first_seen(batch), batch[k].payload.nickname),
{
    lemma_first_seen_nicknames(batch, batch[k].payload.nickname);
}

} // verus!
