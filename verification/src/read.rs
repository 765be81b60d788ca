//! The read path: cache first, the durable store on a miss.

use vstd::prelude::*;
use crate::model::{person_of_row, Person, PersonView, StoredRow, StoredRowView};

verus! {

/// What to do once the cache has answered.
#[derive(Debug, PartialEq, Eq)]
pub enum ReadStep {
    /// Serve these cached bytes as they are.
    Respond(String),
    /// Look the id up in the durable store.
    AskStore,
}

pub enum ReadStepView {
    Respond(Seq<char>),
    AskStore,
}

impl View for ReadStep {
    type V = ReadStepView;

    open spec fn view(&self) -> ReadStepView {
        match self {
            ReadStep::Respond(body) => ReadStepView::Respond(body@),
            ReadStep::AskStore => ReadStepView::AskStore,
        }
    }
}

/// How a lookup that reached the durable store ends.
#[derive(Debug, PartialEq, Eq)]
pub enum ReadOutcome {
    /// The person exists; it is served and offered to the cache.
    Found(Person),
    /// No row has the id.
    NotFound,
    /// The store failed; the caller is told so.
    InternalFailure,
}

pub enum ReadOutcomeView {
    Found(PersonView),
    NotFound,
    InternalFailure,
}

impl View for ReadOutcome {
    type V = ReadOutcomeView;

    open spec fn view(&self) -> ReadOutcomeView {
        match self {
            ReadOutcome::Found(p) => ReadOutcomeView::Found(p@),
            ReadOutcome::NotFound => ReadOutcomeView::NotFound,
            ReadOutcome::InternalFailure => ReadOutcomeView::InternalFailure,
        }
    }
}

/// A cached payload is served verbatim; without one the store is asked.
pub open spec fn cache_step(cached: Option<Seq<char>>) -> ReadStepView {
    match cached {
        Some(body) => ReadStepView::Respond(body),
        None => ReadStepView::AskStore,
    }
}

/// The outcome of a store lookup: `None` is a failed store, an empty result
/// an unknown id, and otherwise the first row is the person.
pub open spec fn store_step(rows: Option<Seq<StoredRowView>>) -> ReadOutcomeView {
    match rows {
        None => ReadOutcomeView::InternalFailure,
        Some(found) => if found.len() == 0 {
            ReadOutcomeView::NotFound
        } else {
            ReadOutcomeView::Found(person_of_row(found[0]))
        },
    }
}

/// Decides on the cache's answer. A cache that failed counts as a miss and is
/// passed as `None`.
pub fn after_cache(cached: Option<String>) -> (step: ReadStep)
    ensures
        step@ == cache_step(crate::model::text_view(cached)),
{
    match cached {
        Some(body) => ReadStep::Respond(body),
        None => ReadStep::AskStore,
    }
}

/// The person of the first row, if there is a row.
pub fn first_person(rows: &Vec<StoredRow>) -> (found: Option<Person>)
    ensures
        match found {
            None => rows.len() == 0,
            Some(p) => rows.len() > 0 && p@ == person_of_row(rows[0]@),
        },
{
    if rows.len() == 0 {
        return None;
    }
    Some(Person::from(&rows[0]))
}

/// The persons of all the rows, in order.
pub fn people_from_rows(rows: &Vec<StoredRow>) -> (people: Vec<Person>)
    ensures
        people.len() == rows.len(),
        forall|i: int| 0 <= i < rows.len() ==> (#[trigger] people[i])@ == person_of_row(rows[i]@),
{
    let mut people: Vec<Person> = Vec::new();
    let mut i: usize = 0;
    while i < rows.len()
        invariant
            i <= rows.len(),
            people.len() == i,
            forall|k: int| 0 <= k < i ==> (#[trigger] people[k])@ == person_of_row(rows[k]@),
        decreases rows.len() - i,
    {
        people.push(Person::from(&rows[i]));
        i = i + 1;
    }
    people
}

/// Decides on the store's answer to a point lookup. A store that failed is
/// passed as `None`.
pub fn after_store(rows: Option<Vec<StoredRow>>) -> (outcome: ReadOutcome)
    ensures
        outcome@ == store_step(
            match rows {
                Some(v) => Some(v.deep_view()),
                None => None,
            },
        ),
{
    match rows {
        None => ReadOutcome::InternalFailure,
        Some(found) => match first_person(&found) {
            None => ReadOutcome::NotFound,
            Some(p) => ReadOutcome::Found(p),
        },
    }
}

} // verus!
