//! The create path: duplicate pre-check, id, enqueue, and what the cache is
//! told.

use vstd::prelude::*;
use vstd::string::*;
use crate::model::{
    copy_tags,
    person_of_payload,
    CreatePerson,
    CreatePersonView,
    Person,
    QueueEvent,
    QueueEventView,
};
use crate::queue::IngestionQueue;
use crate::text::{encode_tags, join_spaces};
use crate::validate::{validate_payload, verdict, ValidationError};

verus! {

/// Why a creation is refused.
#[derive(Clone, Copy, Debug, PartialEq, Eq)]
pub enum CreateError {
    /// A field breaks a rule.
    Invalid(ValidationError),
    /// The cache holds the existence marker of the nickname.
    Duplicate,
}

/// The number of characters of a generated id.
pub const ID_CHARS: usize = 36;

/// The cache key under which a nickname's existence marker is looked up.
pub open spec fn marker_key_text(nickname: Seq<char>) -> Seq<char> {
    "a/"@ + nickname
}

/// Where a client finds the person with the id `id`.
pub open spec fn location_text(id: Seq<char>) -> Seq<char> {
    "/pessoas/"@ + id
}

/// The event that stands for the creation `payload` under the id `id`.
pub open spec fn event_of(id: Seq<char>, payload: CreatePersonView) -> QueueEventView {
    QueueEventView {
        id,
        payload,
        tags: match payload.tags {
            Some(t) => Some(join_spaces(t)),
            None => None,
        },
    }
}

/// A character of a generated id: a lowercase hexadecimal digit or a hyphen.
pub open spec fn is_id_char(c: char) -> bool {
    ('0' <= c && c <= '9') || ('a' <= c && c <= 'f') || c == '-'
}

/// The shape of every generated id.
pub open spec fn is_generated_id(id: Seq<char>) -> bool {
    &&& id.len() == ID_CHARS
    &&& forall|i: int| 0 <= i < id.len() ==> is_id_char(#[trigger] id[i])
}

/// `uuid::Uuid::new_v4` and its `to_string`: a random id in hyphenated form,
/// 36 lowercase hexadecimal digits and hyphens. Which id comes is not
/// claimed.
#[verifier::external_body]
fn fresh_id() -> (id: String)
    ensures
        is_generated_id(id@),
{
    uuid::Uuid::new_v4().to_string()
}

/// The cache key of a nickname's existence marker.
pub fn marker_key(nickname: &str) -> (key: String)
    ensures
        key@ == marker_key_text(nickname@),
{
    let mut key = String::from_str("a/");
    key.append(nickname);
    key
}

/// The location handed to the client after an accepted creation.
pub fn location_for(id: &str) -> (location: String)
    ensures
        location@ == location_text(id@),
{
    let mut location = String::from_str("/pessoas/");
    location.append(id);
    location
}

/// Queues the creation under `id` and returns the person as readers will see
/// it.
pub fn create_dto_and_queue(payload: CreatePerson, id: &String, queue: &mut IngestionQueue) -> (dto:
    Person)
    ensures
        dto@ == person_of_payload(id@, payload@),
        final(queue)@ == old(queue)@.push(event_of(id@, payload@)),
{
    let encoded = match &payload.tags {
        Some(list) => Some(encode_tags(list)),
        None => None,
    };
    let dto = Person {
        id: id.clone(),
        nickname: payload.nickname.clone(),
        name: payload.name.clone(),
        birthdate: payload.birthdate.clone(),
        tags: copy_tags(&payload.tags),
    };
    queue.push(QueueEvent { id: id.clone(), payload, tags: encoded });
    dto
}

/// First half of a creation: validates the request and names the cache key
/// whose presence would mark the nickname as taken.
pub fn begin_create(payload: &CreatePerson) -> (r: Result<String, ValidationError>)
    ensures
        match r {
            Ok(key) => verdict(payload@) is Ok && key@ == marker_key_text(payload@.nickname),
            Err(e) => verdict(payload@) == Err::<(), ValidationError>(e),
        },
{
    match validate_payload(payload) {
        Err(e) => Err(e),
        Ok(_) => Ok(marker_key(payload.nickname.as_str())),
    }
}

/// Second half of a creation, for a given id: a found marker refuses it and
/// leaves the queue alone; otherwise the creation is queued.
pub fn accept_create(
    payload: CreatePerson,
    marker_found: bool,
    id: &String,
    queue: &mut IngestionQueue,
) -> (r: Result<Person, CreateError>)
    ensures
        match r {
            Err(e) => marker_found && e is Duplicate && final(queue)@ == old(queue)@,
            Ok(dto) => !marker_found && dto@ == person_of_payload(id@, payload@) && final(queue)@
                == old(queue)@.push(event_of(id@, payload@)),
        },
{
    if marker_found {
        return Err(CreateError::Duplicate);
    }
    Ok(create_dto_and_queue(payload, id, queue))
}

/// Second half of a creation under a fresh id.
pub fn complete_create(payload: CreatePerson, marker_found: bool, queue: &mut IngestionQueue) -> (r:
    Result<Person, CreateError>)
    ensures
        match r {
            Err(e) => marker_found && e is Duplicate && final(queue)@ == old(queue)@,
            Ok(dto) => !marker_found && is_generated_id(dto@.id) && dto@ == person_of_payload(
                dto@.id,
                payload@,
            ) && final(queue)@ == old(queue)@.push(event_of(dto@.id, payload@)),
        },
{
    if marker_found {
        return Err(CreateError::Duplicate);
    }
    let id = fresh_id();
    accept_create(payload, marker_found, &id, queue)
}

} // verus!
