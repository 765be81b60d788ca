//! The records that travel through the pipeline, with their views.

use vstd::prelude::*;
use crate::text::{decode_tags, split_spaces};

verus! {

/// A creation request as a client submits it.
#[derive(Debug, PartialEq, Eq)]
pub struct CreatePerson {
    pub nickname: String,
    pub name: String,
    pub birthdate: String,
    pub tags: Option<Vec<String>>,
}

pub struct CreatePersonView {
    pub nickname: Seq<char>,
    pub name: Seq<char>,
    pub birthdate: Seq<char>,
    pub tags: Option<Seq<Seq<char>>>,
}

/// A registered person as it is served to readers.
#[derive(Debug, PartialEq, Eq)]
pub struct Person {
    pub id: String,
    pub nickname: String,
    pub name: String,
    pub birthdate: String,
    pub tags: Option<Vec<String>>,
}

pub struct PersonView {
    pub id: Seq<char>,
    pub nickname: Seq<char>,
    pub name: Seq<char>,
    pub birthdate: Seq<char>,
    pub tags: Option<Seq<Seq<char>>>,
}

/// The query of a substring search.
#[derive(Debug, PartialEq, Eq)]
pub struct SearchParams {
    pub target: String,
}

/// A person as the durable store holds it: the tags as one encoded text.
#[derive(Debug, PartialEq, Eq)]
pub struct StoredRow {
    pub id: String,
    pub nickname: String,
    pub name: String,
    pub birthdate: String,
    pub tags: Option<String>,
}

pub struct StoredRowView {
    pub id: Seq<char>,
    pub nickname: Seq<char>,
    pub name: Seq<char>,
    pub birthdate: Seq<char>,
    pub tags: Option<Seq<char>>,
}

/// A creation that was accepted and is not yet durable.
#[derive(Debug, PartialEq, Eq)]
pub struct QueueEvent {
    pub id: String,
    pub payload: CreatePerson,
    pub tags: Option<String>,
}

pub struct QueueEventView {
    pub id: Seq<char>,
    pub payload: CreatePersonView,
    pub tags: Option<Seq<char>>,
}

pub open spec fn tags_view(tags: Option<Vec<String>>) -> Option<Seq<Seq<char>>> {
    match tags {
        Some(v) => Some(v.deep_view()),
        None => None,
    }
}

pub open spec fn text_view(text: Option<String>) -> Option<Seq<char>> {
    match text {
        Some(s) => Some(s@),
        None => None,
    }
}

impl View for CreatePerson {
    type V = CreatePersonView;

    open spec fn view(&self) -> CreatePersonView {
        CreatePersonView {
            nickname: self.nickname@,
            name: self.name@,
            birthdate: self.birthdate@,
            tags: tags_view(self.tags),
        }
    }
}

impl View for Person {
    type V = PersonView;

    open spec fn view(&self) -> PersonView {
        PersonView {
            id: self.id@,
            nickname: self.nickname@,
            name: self.name@,
            birthdate: self.birthdate@,
            tags: tags_view(self.tags),
        }
    }
}

impl View for StoredRow {
    type V = StoredRowView;

    open spec fn view(&self) -> StoredRowView {
        StoredRowView {
            id: self.id@,
            nickname: self.nickname@,
            name: self.name@,
            birthdate: self.birthdate@,
            tags: text_view(self.tags),
        }
    }
}

impl DeepView for StoredRow {
    type V = StoredRowView;

    open spec fn deep_view(&self) -> StoredRowView {
        self@
    }
}

impl View for QueueEvent {
    type V = QueueEventView;

    open spec fn view(&self) -> QueueEventView {
        QueueEventView { id: self.id@, payload: self.payload@, tags: text_view(self.tags) }
    }
}

impl DeepView for QueueEvent {
    type V = QueueEventView;

    open spec fn deep_view(&self) -> QueueEventView {
        self@
    }
}

/// A copy of a list of texts.
pub fn copy_texts(texts: &Vec<String>) -> (out: Vec<String>)
    ensures
        out.deep_view() == texts.deep_view(),
{
    let mut out: Vec<String> = Vec::new();
    let mut i: usize = 0;
    while i < texts.len()
        invariant
            i <= texts.len(),
            out.len() == i,
            forall|k: int| 0 <= k < i ==> out[k]@ == texts[k]@,
        decreases texts.len() - i,
    {
        out.push(texts[i].clone());
        i = i + 1;
    }
    proof {
        assert(out.deep_view() =~= texts.deep_view());
    }
    out
}

/// A copy of an optional list of texts.
pub fn copy_tags(tags: &Option<Vec<String>>) -> (out: Option<Vec<String>>)
    ensures
        tags_view(out) == tags_view(*tags),
{
    match tags {
        Some(v) => Some(copy_texts(v)),
        None => None,
    }
}

/// A copy of an optional text.
pub fn copy_text(text: &Option<String>) -> (out: Option<String>)
    ensures
        text_view(out) == text_view(*text),
{
    match text {
        Some(s) => Some(s.clone()),
        None => None,
    }
}

impl Clone for CreatePerson {
    fn clone(&self) -> (out: Self)
        ensures
            out@ == self@,
    {
        CreatePerson {
            nickname: self.nickname.clone(),
            name: self.name.clone(),
            birthdate: self.birthdate.clone(),
            tags: copy_tags(&self.tags),
        }
    }
}

impl Clone for Person {
    fn clone(&self) -> (out: Self)
        ensures
            out@ == self@,
    {
        Person {
            id: self.id.clone(),
            nickname: self.nickname.clone(),
            name: self.name.clone(),
            birthdate: self.birthdate.clone(),
            tags: copy_tags(&self.tags),
        }
    }
}

impl Clone for StoredRow {
    fn clone(&self) -> (out: Self)
        ensures
            out@ == self@,
    {
        StoredRow {
            id: self.id.clone(),
            nickname: self.nickname.clone(),
            name: self.name.clone(),
            birthdate: self.birthdate.clone(),
            tags: copy_text(&self.tags),
        }
    }
}

impl Clone for QueueEvent {
    fn clone(&self) -> (out: Self)
        ensures
            out@ == self@,
    {
        QueueEvent {
            id: self.id.clone(),
            payload: self.payload.clone(),
            tags: copy_text(&self.tags),
        }
    }
}

/// What a stored row shows to readers: its fields, with the tags decoded.
pub open spec fn person_of_row(row: StoredRowView) -> PersonView {
    PersonView {
        id: row.id,
        nickname: row.nickname,
        name: row.name,
        birthdate: row.birthdate,
        tags: match row.tags {
            Some(t) => Some(split_spaces(t)),
            None => None,
        },
    }
}

/// What a creation shows to readers once it has the id `id`.
pub open spec fn person_of_payload(id: Seq<char>, payload: CreatePersonView) -> PersonView {
    PersonView {
        id,
        nickname: payload.nickname,
        name: payload.name,
        birthdate: payload.birthdate,
        tags: payload.tags,
    }
}

impl Person {
    /// The person that a stored row describes.
    pub fn from(row: &StoredRow) -> (p: Person)
        ensures
            p@ == person_of_row(row@),
    {
        let tags = match &row.tags {
            None => None,
            Some(s) => Some(decode_tags(s.as_str())),
        };
        Person {
            id: row.id.clone(),
            nickname: row.nickname.clone(),
            name: row.name.clone(),
            birthdate: row.birthdate.clone(),
            tags,
        }
    }
}

} // verus!
