//! The batch flusher: what a drained batch becomes before it reaches the
//! durable store. Duplicates by nickname are dropped, first seen wins, and
//! the rest becomes one conflict-ignoring insert.

use vstd::prelude::*;
use vstd::string::*;
use crate::model::{QueueEvent, QueueEventView};
use crate::queue::IngestionQueue;
use crate::text::{join_with, quoted};

verus! {

/// Whether some event of `events` carries the nickname `nickname`.
pub open spec fn has_nickname(events: Seq<QueueEventView>, nickname: Seq<char>) -> bool {
    exists|i: int| 0 <= i < events.len() && (#[trigger] events[i]).payload.nickname == nickname
}

/// The batch without the events whose nickname an earlier kept event already
/// carries, in the batch's order.
pub open spec fn first_seen(batch: Seq<QueueEventView>) -> Seq<QueueEventView>
    decreases batch.len(),
{
    if batch.len() == 0 {
        Seq::empty()
    } else {
        let kept = first_seen(batch.drop_last());
        if has_nickname(kept, batch.last().payload.nickname) {
            kept
        } else {
            kept.push(batch.last())
        }
    }
}

/// The text of one row of values: the values in parentheses, separated by a
/// comma and a space.
pub open spec fn row_text(values: Seq<Seq<char>>) -> Seq<char> {
    "("@ + join_with(values, ", "@) + ")"@
}

/// The text of an `INSERT` statement of the given rows, each already in
/// parentheses.
pub open spec fn insert_text(table: Seq<char>, fields: Seq<Seq<char>>, rows: Seq<Seq<char>>) -> Seq<
    char,
> {
    "INSERT INTO "@ + table + " ("@ + join_with(fields, ", "@) + ") VALUES "@ + join_with(
        rows,
        ", "@,
    ) + ";"@
}

/// The columns of the people table, in the order in which a row is written.
pub open spec fn people_columns() -> Seq<Seq<char>> {
    seq!["ID"@, "NICKNAME"@, "NOME"@, "BIRTHDATE"@, "STACK"@]
}

/// The literals of an event's row; absent tags are stored as the empty text.
pub open spec fn row_values(event: QueueEventView) -> Seq<Seq<char>> {
    seq![
        quoted(event.id),
        quoted(event.payload.nickname),
        quoted(event.payload.name),
        quoted(event.payload.birthdate),
        quoted(
            match event.tags {
                Some(t) => t,
                None => Seq::empty(),
            },
        ),
    ]
}

/// The rows of the events, in order.
pub open spec fn row_texts(events: Seq<QueueEventView>) -> Seq<Seq<char>> {
    Seq::new(events.len(), |i: int| row_text(row_values(events[i])))
}

/// The statement that applies the events: one insert of all their rows that
/// skips every row in conflict with a stored one. No events, no statement.
pub open spec fn batch_text(events: Seq<QueueEventView>) -> Seq<char> {
    if events.len() == 0 {
        Seq::empty()
    } else {
        insert_text("PEOPLE"@, people_columns(), row_texts(events)).drop_last()
            + "ON CONFLICT DO NOTHING;"@
    }
}

/// `sql_builder::SqlBuilder`, opaque here: what it holds is known through
/// the four names below only.
#[verifier::external_type_specification]
#[verifier::external_body]
pub struct ExSqlBuilder(sql_builder::SqlBuilder);

/// Whether the builder builds an `INSERT` statement without a `RETURNING`
/// clause.
pub uninterp spec fn is_plain_insert(builder: sql_builder::SqlBuilder) -> bool;

/// The table that the builder names.
pub uninterp spec fn builder_table(builder: sql_builder::SqlBuilder) -> Seq<char>;

/// The fields that the builder has been given, in order.
pub uninterp spec fn builder_fields(builder: sql_builder::SqlBuilder) -> Seq<Seq<char>>;

/// The rows of values that the builder has been given, in order, each as its
/// text in parentheses.
pub uninterp spec fn builder_rows(builder: sql_builder::SqlBuilder) -> Seq<Seq<char>>;

/// `sql_builder::quote`: the text between single quotes, each single quote
/// inside it doubled.
#[verifier::external_body]
fn sql_quote(text: &str) -> (out: String)
    ensures
        out@ == quoted(text@),
{
    sql_builder::quote(text)
}

/// `sql_builder::SqlBuilder::insert_into`: a builder of a plain insert into
/// the table, with no field and no row yet.
#[verifier::external_body]
fn insert_into(table: &str) -> (builder: sql_builder::SqlBuilder)
    ensures
        is_plain_insert(builder),
        builder_table(builder) == table@,
        builder_fields(builder) == Seq::<Seq<char>>::empty(),
        builder_rows(builder) == Seq::<Seq<char>>::empty(),
{
    sql_builder::SqlBuilder::insert_into(table)
}

/// `sql_builder::SqlBuilder::field`: the field goes behind those given
/// before; nothing else changes.
#[verifier::external_body]
fn add_field(builder: &mut sql_builder::SqlBuilder, field: &str)
    ensures
        is_plain_insert(*final(builder)) == is_plain_insert(*old(builder)),
        builder_table(*final(builder)) == builder_table(*old(builder)),
        builder_fields(*final(builder)) == builder_fields(*old(builder)).push(field@),
        builder_rows(*final(builder)) == builder_rows(*old(builder)),
{
    builder.field(field);
}

/// `sql_builder::SqlBuilder::values`: the values become one more row, written
/// in parentheses and separated by a comma and a space; nothing else changes.
#[verifier::external_body]
fn add_values(builder: &mut sql_builder::SqlBuilder, values: &Vec<String>)
    ensures
        is_plain_insert(*final(builder)) == is_plain_insert(*old(builder)),
        builder_table(*final(builder)) == builder_table(*old(builder)),
        builder_fields(*final(builder)) == builder_fields(*old(builder)),
        builder_rows(*final(builder)) == builder_rows(*old(builder)).push(
            row_text(values.deep_view()),
        ),
{
    builder.values(values.as_slice());
}

/// `sql_builder::SqlBuilder::sql`: for a plain insert with a table name and
/// at least one row, the statement that names the table, the fields and the
/// rows. Of other builders nothing is claimed.
#[verifier::external_body]
fn statement_text(builder: &sql_builder::SqlBuilder) -> (out: Option<String>)
    ensures
        match out {
            Some(text) => is_plain_insert(*builder) && builder_table(*builder).len() > 0
                && builder_rows(*builder).len() > 0 ==> text@ == insert_text(
                builder_table(*builder),
                builder_fields(*builder),
                builder_rows(*builder),
            ),
            None => !(is_plain_insert(*builder) && builder_table(*builder).len() > 0
                && builder_rows(*builder).len() > 0),
        },
{
    builder.sql().ok()
}

fn contains_nickname(kept: &Vec<QueueEvent>, nickname: &String) -> (found: bool)
    ensures
        found == has_nickname(kept.deep_view(), nickname@),
{
    let mut i: usize = 0;
    while i < kept.len()
        invariant
            i <= kept.len(),
            forall|k: int| 0 <= k < i ==> (#[trigger] kept.deep_view()[k]).payload.nickname != nickname@,
        decreases kept.len() - i,
    {
        if kept[i].payload.nickname == *nickname {
            proof {
                assert(kept.deep_view()[i as int].payload.nickname == nickname@);
            }
            return true;
        }
        i = i + 1;
    }
    false
}

/// Keeps, of the events that share a nickname, the one that was drained first.
pub fn dedup_first_seen(batch: &Vec<QueueEvent>) -> (kept: Vec<QueueEvent>)
    ensures
        kept.deep_view() == first_seen(batch.deep_view()),
{
    let ghost all = batch.deep_view();
    let mut kept: Vec<QueueEvent> = Vec::new();
    let mut i: usize = 0;
    while i < batch.len()
        invariant
            i <= batch.len(),
            all == batch.deep_view(),
            kept.deep_view() == first_seen(all.subrange(0, i as int)),
        decreases batch.len() - i,
    {
        proof {
            assert(all.subrange(0, i + 1).drop_last() =~= all.subrange(0, i as int));
            assert(all.subrange(0, i + 1).last() == batch[i as int]@);
        }
        if !contains_nickname(&kept, &batch[i].payload.nickname) {
            let ghost before = kept.deep_view();
            let event = batch[i].clone();
            kept.push(event);
            proof {
                assert(kept.deep_view() =~= before.push(event@));
            }
        }
        i = i + 1;
    }
    proof {
        assert(all.subrange(0, i as int) =~= all);
    }
    kept
}

/// The literals of an event's row.
pub fn values_for(event: &QueueEvent) -> (values: Vec<String>)
    ensures
        values.deep_view() == row_values(event@),
{
    let mut values: Vec<String> = Vec::new();
    values.push(sql_quote(event.id.as_str()));
    values.push(sql_quote(event.payload.nickname.as_str()));
    values.push(sql_quote(event.payload.name.as_str()));
    values.push(sql_quote(event.payload.birthdate.as_str()));
    match &event.tags {
        Some(t) => values.push(sql_quote(t.as_str())),
        None => values.push(sql_quote("")),
    }
    proof {
        reveal_strlit("");
        assert(""@ =~= Seq::<char>::empty());
        assert(values.deep_view() =~= row_values(event@));
    }
    values
}

/// The statement that applies all the events, in order, in one insert.
pub fn build_batch(events: &Vec<QueueEvent>) -> (out: String)
    ensures
        out@ == batch_text(events.deep_view()),
{
    if events.len() == 0 {
        return String::new();
    }
    let ghost all = events.deep_view();
    let mut builder = insert_into("PEOPLE");
    add_field(&mut builder, "ID");
    add_field(&mut builder, "NICKNAME");
    add_field(&mut builder, "NOME");
    add_field(&mut builder, "BIRTHDATE");
    add_field(&mut builder, "STACK");
    proof {
        assert(builder_fields(builder) =~= people_columns());
        assert(row_texts(all.subrange(0, 0)) =~= Seq::<Seq<char>>::empty());
    }
    let mut i: usize = 0;
    while i < events.len()
        invariant
            i <= events.len(),
            all == events.deep_view(),
            is_plain_insert(builder),
            builder_table(builder) == "PEOPLE"@,
            builder_fields(builder) == people_columns(),
            builder_rows(builder) == row_texts(all.subrange(0, i as int)),
        decreases events.len() - i,
    {
        let values = values_for(&events[i]);
        add_values(&mut builder, &values);
        proof {
            assert(row_texts(all.subrange(0, i + 1)) =~= row_texts(all.subrange(0, i as int)).push(
                row_text(row_values(all[i as int])),
            ));
        }
        i = i + 1;
    }
    proof {
        reveal_strlit("PEOPLE");
        reveal_strlit(";");
        assert(all.subrange(0, i as int) =~= all);
        assert(row_texts(all).len() == all.len());
    }
    match statement_text(&builder) {
        Some(full) => {
            let n: usize = full.as_str().unicode_len();
            let mut out = String::from_str(full.as_str().substring_char(0, n - 1));
            out.append("ON CONFLICT DO NOTHING;");
            out
        },
        None => String::new(),
    }
}

/// What one tick hands to the store: nothing while the queue is empty,
/// otherwise the text that applies the drained batch, duplicates removed. The
/// queue is empty afterwards either way.
pub fn prepare_flush(queue: &mut IngestionQueue) -> (out: Option<String>)
    ensures
        final(queue)@ == Seq::<QueueEventView>::empty(),
        match out {
            None => old(queue)@.len() == 0,
            Some(text) => old(queue)@.len() > 0 && text@ == batch_text(first_seen(old(queue)@)),
        },
{
    if queue.is_empty() {
        proof {
            assert(queue@ =~= Seq::<QueueEventView>::empty());
        }
        return None;
    }
    let batch = queue.drain();
    let kept = dedup_first_seen(&batch);
    Some(build_batch(&kept))
}

} // verus!
