//! The pipeline as a whole: a model of the cache and of the queue over time,
//! and the laws that the create and read paths obey in it.

use vstd::prelude::*;
use vstd::string::*;
use crate::create::{event_of, is_generated_id, is_id_char, marker_key_text, CreateError};
use crate::model::{CreatePersonView, QueueEventView, StoredRowView};
use crate::read::{cache_step, store_step, ReadOutcomeView, ReadStepView};
use crate::validate::verdict;

verus! {

/// What the cache answers for `key`.
pub open spec fn cache_get(cache: Map<Seq<char>, Seq<char>>, key: Seq<char>) -> Option<Seq<char>> {
    if cache.dom().contains(key) {
        Some(cache[key])
    } else {
        None
    }
}

/// The cache after a best-effort write: it holds the payload if the write
/// was acknowledged and is unchanged if it was not.
pub open spec fn cache_set(
    cache: Map<Seq<char>, Seq<char>>,
    key: Seq<char>,
    payload: Seq<char>,
    acknowledged: bool,
) -> Map<Seq<char>, Seq<char>> {
    if acknowledged {
        cache.insert(key, payload)
    } else {
        cache
    }
}

/// What a reader is told.
pub enum ReadResponse {
    Body(Seq<char>),
    NotFound,
    InternalFailure,
}

/// A lookup's response, the cache it leaves, and whether it asked the store.
pub struct ReadResult {
    pub response: ReadResponse,
    pub cache: Map<Seq<char>, Seq<char>>,
    pub store_asked: bool,
}

/// A lookup of `id`. `rows` is what the store would answer if asked (`None`:
/// it fails), `body` the serialized form of the person it finds, and
/// `fill_acknowledged` whether the cache takes the fill.
pub open spec fn read_path(
    cache: Map<Seq<char>, Seq<char>>,
    id: Seq<char>,
    rows: Option<Seq<StoredRowView>>,
    body: Seq<char>,
    fill_acknowledged: bool,
) -> ReadResult {
    match cache_step(cache_get(cache, id)) {
        ReadStepView::Respond(cached) => ReadResult {
            response: ReadResponse::Body(cached),
            cache,
            store_asked: false,
        },
        ReadStepView::AskStore => match store_step(rows) {
            ReadOutcomeView::Found(_) => ReadResult {
                response: ReadResponse::Body(body),
                cache: cache_set(cache, id, body, fill_acknowledged),
                store_asked: true,
            },
            ReadOutcomeView::NotFound => ReadResult {
                response: ReadResponse::NotFound,
                cache,
                store_asked: true,
            },
            ReadOutcomeView::InternalFailure => ReadResult {
                response: ReadResponse::InternalFailure,
                cache,
                store_asked: true,
            },
        },
    }
}

/// A creation's answer, and the cache and queue it leaves.
pub struct CreateResult {
    pub answer: Result<Seq<char>, CreateError>,
    pub cache: Map<Seq<char>, Seq<char>>,
    pub queue: Seq<QueueEventView>,
}

/// A creation of `payload`. `id` is the id it would get, `body` the
/// serialized form of the new person, and `set_acknowledged` whether the
/// cache takes the write-through.
pub open spec fn create_path(
    cache: Map<Seq<char>, Seq<char>>,
    queue: Seq<QueueEventView>,
    payload: CreatePersonView,
    id: Seq<char>,
    body: Seq<char>,
    set_acknowledged: bool,
) -> CreateResult {
    match verdict(payload) {
        Err(e) => CreateResult { answer: Err(CreateError::Invalid(e)), cache, queue },
        Ok(_) => if cache_get(cache, marker_key_text(payload.nickname)) is Some {
            CreateResult { answer: Err(CreateError::Duplicate), cache, queue }
        } else {
            CreateResult {
                answer: Ok(id),
                cache: cache_set(cache, id, body, set_acknowledged),
                queue: queue.push(event_of(id, payload)),
            }
        },
    }
}

/// An accepted creation whose write-through the cache acknowledged is served
/// from the cache right away: the lookup of its id answers with the body that
/// was written and does not ask the store, whatever the store holds.
pub proof fn law_created_is_readable_from_cache(
    cache: Map<Seq<char>, Seq<char>>,
    queue: Seq<QueueEventView>,
    payload: CreatePersonView,
    id: Seq<char>,
    body: Seq<char>,
    rows: Option<Seq<StoredRowView>>,
    other_body: Seq<char>,
    fill_acknowledged: bool,
)
    requires
        create_path(cache, queue, payload, id, body, true).answer is Ok,
    ensures
        read_path(
            create_path(cache, queue, payload, id, body, true).cache,
            id,
            rows,
            other_body,
            fill_acknowledged,
        ).response == ReadResponse::Body(body),
        !read_path(
            create_path(cache, queue, payload, id, body, true).cache,
            id,
            rows,
            other_body,
            fill_acknowledged,
        ).store_asked,
{
}

/// A refused creation queues nothing and caches nothing.
pub proof fn law_refused_creation_changes_nothing(
    cache: Map<Seq<char>, Seq<char>>,
    queue: Seq<QueueEventView>,
    payload: CreatePersonView,
    id: Seq<char>,
    body: Seq<char>,
    set_acknowledged: bool,
)
    requires
        create_path(cache, queue, payload, id, body, set_acknowledged).answer is Err,
    ensures
        create_path(cache, queue, payload, id, body, set_acknowledged).cache == cache,
        create_path(cache, queue, payload, id, body, set_acknowledged).queue == queue,
{
}

/// An accepted creation is queued exactly once, behind what was queued, and
/// is accepted whether or not the cache takes the write-through.
pub proof fn law_accepted_creation_is_queued(
    cache: Map<Seq<char>, Seq<char>>,
    queue: Seq<QueueEventView>,
    payload: CreatePersonView,
    id: Seq<char>,
    body: Seq<char>,
    set_acknowledged: bool,
)
    requires
        create_path(cache, queue, payload, id, body, set_acknowledged).answer is Ok,
    ensures
        create_path(cache, queue, payload, id, body, set_acknowledged).queue == queue.push(
            event_of(id, payload),
        ),
        create_path(cache, queue, payload, id, body, !set_acknowledged).answer is Ok,
{
}

/// After a miss that the store answered and whose fill the cache
/// acknowledged, a later lookup of the same id is served from the cache with
/// the same body and does not ask the store, even if the store would fail.
pub proof fn law_filled_read_skips_store(
    cache: Map<Seq<char>, Seq<char>>,
    id: Seq<char>,
    rows: Seq<StoredRowView>,
    body: Seq<char>,
    later_rows: Option<Seq<StoredRowView>>,
    later_body: Seq<char>,
    later_acknowledged: bool,
)
    requires
        cache_get(cache, id) is None,
        rows.len() > 0,
    ensures
        read_path(cache, id, Some(rows), body, true).response == ReadResponse::Body(body),
        read_path(cache, id, Some(rows), body, true).store_asked,
        read_path(
            read_path(cache, id, Some(rows), body, true).cache,
            id,
            later_rows,
            later_body,
            later_acknowledged,
        ).response == ReadResponse::Body(body),
        !read_path(
            read_path(cache, id, Some(rows), body, true).cache,
            id,
            later_rows,
            later_body,
            later_acknowledged,
        ).store_asked,
{
}

/// A cache hit is served verbatim and changes nothing.
pub proof fn law_hit_is_verbatim(
    cache: Map<Seq<char>, Seq<char>>,
    id: Seq<char>,
    rows: Option<Seq<StoredRowView>>,
    body: Seq<char>,
    fill_acknowledged: bool,
)
    requires
        cache_get(cache, id) is Some,
    ensures
        read_path(cache, id, rows, body, fill_acknowledged).response == ReadResponse::Body(
            cache[id],
        ),
        read_path(cache, id, rows, body, fill_acknowledged).cache == cache,
        !read_path(cache, id, rows, body, fill_acknowledged).store_asked,
{
}

/// On a miss, a failed store is reported and an unknown id is not found;
/// neither touches the cache.
pub proof fn law_miss_without_row(
    cache: Map<Seq<char>, Seq<char>>,
    id: Seq<char>,
    body: Seq<char>,
    fill_acknowledged: bool,
)
    requires
        cache_get(cache, id) is None,
    ensures
        read_path(cache, id, None, body, fill_acknowledged).response
            == ReadResponse::InternalFailure,
        read_path(cache, id, None, body, fill_acknowledged).cache == cache,
        read_path(cache, id, Some(Seq::empty()), body, fill_acknowledged).response
            == ReadResponse::NotFound,
        read_path(cache, id, Some(Seq::empty()), body, fill_acknowledged).cache == cache,
{
}

/// The two key namespaces of the cache are disjoint: no existence-marker key
/// is a generated id.
pub proof fn law_marker_keys_are_no_ids(nickname: Seq<char>, id: Seq<char>)
    requires
        is_generated_id(id),
    ensures
        marker_key_text(nickname) != id,
{
    reveal_strlit("a/");
    assert(marker_key_text(nickname)[1] == '/');
    assert(is_id_char(id[1]));
}

/// No creation ever writes an existence marker: a nickname whose marker the
/// cache lacks still lacks it after any creation under a generated id, so
/// the duplicate pre-check of a later creation misses as well.
pub proof fn law_creation_writes_no_marker(
    cache: Map<Seq<char>, Seq<char>>,
    queue: Seq<QueueEventView>,
    payload: CreatePersonView,
    id: Seq<char>,
    body: Seq<char>,
    set_acknowledged: bool,
    nickname: Seq<char>,
)
    requires
        is_generated_id(id),
        cache_get(cache, marker_key_text(nickname)) is None,
    ensures
        cache_get(
            create_path(cache, queue, payload, id, body, set_acknowledged).cache,
            marker_key_text(nickname),
        ) is None,
{
    law_marker_keys_are_no_ids(nickname, id);
}

/// Two valid creations with the same nickname, made one after the other
/// before any flush, are both accepted and both queued, in order.
pub proof fn law_same_nickname_accepted_twice(
    cache: Map<Seq<char>, Seq<char>>,
    queue: Seq<QueueEventView>,
    first: CreatePersonView,
    second: CreatePersonView,
    first_id: Seq<char>,
    second_id: Seq<char>,
    first_body: Seq<char>,
    second_body: Seq<char>,
    first_acknowledged: bool,
    second_acknowledged: bool,
)
    requires
        first.nickname == second.nickname,
        verdict(first) is Ok,
        verdict(second) is Ok,
        is_generated_id(first_id),
        cache_get(cache, marker_key_text(first.nickname)) is None,
    ensures
        ({
            let one = create_path(cache, queue, first, first_id, first_body, first_acknowledged);
            let two = create_path(
                one.cache,
                one.queue,
                second,
                second_id,
                second_body,
                second_acknowledged,
            );
            &&& one.answer == Ok::<Seq<char>, CreateError>(first_id)
            &&& two.answer == Ok::<Seq<char>, CreateError>(second_id)
            &&& two.queue == queue.push(event_of(first_id, first)).push(event_of(second_id, second))
        }),
{
    law_creation_writes_no_marker(
        cache,
        queue,
        first,
        first_id,
        first_body,
        first_acknowledged,
        first.nickname,
    );
}

/// One step in the life of the queue.
pub enum QueueOp {
    Push(QueueEventView),
    Drain,
}

/// What is still queued and what the consumer has received so far.
pub struct QueueRun {
    pub queued: Seq<QueueEventView>,
    pub delivered: Seq<QueueEventView>,
}

/// The queue after the steps `ops`, started empty: a push adds behind, a
/// drain hands everything queued to the consumer.
pub open spec fn run_ops(ops: Seq<QueueOp>) -> QueueRun
    decreases ops.len(),
{
    if ops.len() == 0 {
        QueueRun { queued: Seq::empty(), delivered: Seq::empty() }
    } else {
        let before = run_ops(ops.drop_last());
        match ops.last() {
            QueueOp::Push(event) => QueueRun {
                queued: before.queued.push(event),
                delivered: before.delivered,
            },
            QueueOp::Drain => QueueRun {
                queued: Seq::empty(),
                delivered: before.delivered + before.queued,
            },
        }
    }
}

/// The events that the steps push, in order.
pub open spec fn pushed(ops: Seq<QueueOp>) -> Seq<QueueEventView>
    decreases ops.len(),
{
    if ops.len() == 0 {
        Seq::empty()
    } else {
        match ops.last() {
            QueueOp::Push(event) => pushed(ops.drop_last()).push(event),
            QueueOp::Drain => pushed(ops.drop_last()),
        }
    }
}

/// However pushes and drains alternate, what was delivered followed by what
/// is still queued is what was pushed: each event once, in push order.
pub proof fn law_queue_loses_and_repeats_nothing(ops: Seq<QueueOp>)
    ensures
        run_ops(ops).delivered + run_ops(ops).queued == pushed(ops),
    decreases ops.len(),
{
    if ops.len() > 0 {
        law_queue_loses_and_repeats_nothing(ops.drop_last());
        let before = run_ops(ops.drop_last());
        match ops.last() {
            QueueOp::Push(event) => {
                assert(before.delivered + before.queued.push(event) =~= (before.delivered
                    + before.queued).push(event));
            },
            QueueOp::Drain => {
                assert((before.delivered + before.queued) + Seq::<QueueEventView>::empty()
                    =~= before.delivered + before.queued);
            },
        }
    } else {
        assert(Seq::<QueueEventView>::empty() + Seq::<QueueEventView>::empty()
            =~= Seq::<QueueEventView>::empty());
    }
}

/// Once a drain has run last, everything pushed has been delivered.
pub proof fn law_final_drain_delivers_all(ops: Seq<QueueOp>)
    requires
        ops.len() > 0,
        ops.last() is Drain,
    ensures
        run_ops(ops).delivered == pushed(ops),
        run_ops(ops).queued == Seq::<QueueEventView>::empty(),
{
    law_queue_loses_and_repeats_nothing(ops);
    assert(run_ops(ops).delivered + Seq::<QueueEventView>::empty() =~= run_ops(ops).delivered);
}

} // verus!
