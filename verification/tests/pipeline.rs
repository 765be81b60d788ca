use person_registry::create::{
    accept_create, begin_create, complete_create, create_dto_and_queue, location_for, marker_key,
    CreateError,
};
use person_registry::cycle::{advance, FlushStage, FlushStep, Flusher};
use person_registry::flush::{build_batch, dedup_first_seen, prepare_flush, values_for};
use person_registry::model::{CreatePerson, Person, QueueEvent, StoredRow};
use person_registry::queue::IngestionQueue;
use person_registry::read::{
    after_cache, after_store, first_person, people_from_rows, ReadOutcome, ReadStep,
};
use person_registry::text::{decode_tags, encode_tags};
use person_registry::validate::{check_fields, validate_payload, ValidationError};
use std::collections::HashMap;

fn payload(nickname: &str, name: &str, birthdate: &str, tags: Option<Vec<&str>>) -> CreatePerson {
    CreatePerson {
        nickname: nickname.to_string(),
        name: name.to_string(),
        birthdate: birthdate.to_string(),
        tags: tags.map(|t| t.into_iter().map(|s| s.to_string()).collect()),
    }
}

fn event(id: &str, nickname: &str, name: &str) -> QueueEvent {
    QueueEvent {
        id: id.to_string(),
        payload: payload(nickname, name, "1990-05-01", None),
        tags: None,
    }
}

fn body_of(p: &Person) -> String {
    format!(
        "{{\"id\":\"{}\",\"nickname\":\"{}\",\"name\":\"{}\",\"birthdate\":\"{}\"}}",
        p.id, p.nickname, p.name, p.birthdate
    )
}

fn row_of(e: &QueueEvent) -> StoredRow {
    StoredRow {
        id: e.id.clone(),
        nickname: e.payload.nickname.clone(),
        name: e.payload.name.clone(),
        birthdate: e.payload.birthdate.clone(),
        tags: Some(e.tags.clone().unwrap_or(String::new())),
    }
}

#[test]
fn encode_joins_with_single_spaces() {
    let tags = vec!["rust".to_string(), "go".to_string(), "sql".to_string()];
    assert_eq!(encode_tags(&tags), "rust go sql");
    assert_eq!(encode_tags(&vec!["solo".to_string()]), "solo");
    assert_eq!(encode_tags(&Vec::new()), "");
}

#[test]
fn decode_splits_on_every_space() {
    assert_eq!(decode_tags("rust go sql"), vec!["rust", "go", "sql"]);
    assert_eq!(decode_tags(""), vec![""]);
    assert_eq!(decode_tags(" a  b "), vec!["", "a", "", "b", ""]);
    assert_eq!(decode_tags("çã é"), vec!["çã", "é"]);
}

#[test]
fn tags_without_spaces_round_trip() {
    let tags = vec!["a".to_string(), "".to_string(), "bc".to_string()];
    assert_eq!(decode_tags(&encode_tags(&tags)), tags);
}

#[test]
fn tag_with_space_does_not_round_trip() {
    let tags = vec!["two words".to_string()];
    assert_eq!(decode_tags(&encode_tags(&tags)), vec!["two", "words"]);
}

#[test]
fn empty_tag_list_does_not_round_trip() {
    let tags: Vec<String> = Vec::new();
    assert_eq!(decode_tags(&encode_tags(&tags)), vec![""]);
}

#[test]
fn text_is_rebuilt_from_its_pieces() {
    let text = " x y  z";
    assert_eq!(encode_tags(&decode_tags(text)), text);
}

#[test]
fn valid_payload_passes() {
    let p = payload("joe", "Joe Smith", "1990-05-01", Some(vec!["rust", "go"]));
    assert_eq!(validate_payload(&p), Ok(()));
}

#[test]
fn limits_are_inclusive() {
    let nick = "n".repeat(32);
    let name = "m".repeat(100);
    let tag = "t".repeat(32);
    let p = payload(&nick, &name, "2000-02-29", Some(vec![&tag]));
    assert_eq!(validate_payload(&p), Ok(()));
}

#[test]
fn limits_count_characters() {
    let nick = "ã".repeat(32);
    let p = payload(&nick, "x", "2000-01-01", None);
    assert_eq!(validate_payload(&p), Ok(()));
}

#[test]
fn long_name_is_refused() {
    let name = "m".repeat(101);
    let p = payload("joe", &name, "1990-05-01", None);
    assert_eq!(validate_payload(&p), Err(ValidationError::NameTooLong));
}

#[test]
fn long_nickname_is_refused() {
    let nick = "n".repeat(33);
    let p = payload(&nick, "Joe", "1990-05-01", None);
    assert_eq!(validate_payload(&p), Err(ValidationError::NicknameTooLong));
}

#[test]
fn unreal_dates_are_refused() {
    for bad in ["1990-02-30", "1990-13-01", "yesterday", "", "01/05/1990", "2001-02-29"] {
        let p = payload("joe", "Joe", bad, None);
        assert_eq!(validate_payload(&p), Err(ValidationError::InvalidBirthdate));
    }
}

#[test]
fn long_tag_is_refused() {
    let tag = "t".repeat(33);
    let p = payload("joe", "Joe", "1990-05-01", Some(vec!["ok", &tag]));
    assert_eq!(validate_payload(&p), Err(ValidationError::TagTooLong));
}

#[test]
fn first_broken_rule_is_reported() {
    let name = "m".repeat(101);
    let nick = "n".repeat(33);
    let p = payload(&nick, &name, "nope", None);
    assert_eq!(validate_payload(&p), Err(ValidationError::NameTooLong));
    let p = payload(&nick, "Joe", "nope", None);
    assert_eq!(validate_payload(&p), Err(ValidationError::NicknameTooLong));
}

#[test]
fn check_fields_goes_by_the_given_date_verdict() {
    let p = payload("joe", "Joe", "whatever", None);
    assert_eq!(check_fields(&p, true), Ok(()));
    assert_eq!(check_fields(&p, false), Err(ValidationError::InvalidBirthdate));
}

#[test]
fn keys_and_locations() {
    assert_eq!(marker_key("joe"), "a/joe");
    assert_eq!(marker_key(""), "a/");
    assert_eq!(location_for("abc-123"), "/pessoas/abc-123");
}

#[test]
fn queue_is_first_in_first_out() {
    let mut q = IngestionQueue::new();
    assert!(q.is_empty());
    assert_eq!(q.len(), 0);
    q.push(event("1", "a", "A"));
    q.push(event("2", "b", "B"));
    q.push(event("3", "c", "C"));
    assert_eq!(q.len(), 3);
    assert!(!q.is_empty());
    let batch = q.drain();
    let ids: Vec<&str> = batch.iter().map(|e| e.id.as_str()).collect();
    assert_eq!(ids, vec!["1", "2", "3"]);
    assert_eq!(batch[1], event("2", "b", "B"));
    assert!(q.is_empty());
    assert!(q.drain().is_empty());
}

#[test]
fn pushes_between_drains_are_delivered_once() {
    let mut q = IngestionQueue::new();
    let mut delivered: Vec<String> = Vec::new();
    let mut next = 0;
    for round in 0..5 {
        for _ in 0..(round + 1) {
            q.push(event(&next.to_string(), "n", "N"));
            next += 1;
        }
        if round % 2 == 1 {
            delivered.extend(q.drain().into_iter().map(|e| e.id));
        }
    }
    delivered.extend(q.drain().into_iter().map(|e| e.id));
    let expected: Vec<String> = (0..next).map(|i| i.to_string()).collect();
    assert_eq!(delivered, expected);
}

#[test]
fn dedup_keeps_first_seen() {
    let batch = vec![
        event("1", "joe", "First Joe"),
        event("2", "ann", "Ann"),
        event("3", "joe", "Second Joe"),
        event("4", "joe", "Third Joe"),
        event("5", "ann", "Other Ann"),
        event("6", "bob", "Bob"),
    ];
    let kept = dedup_first_seen(&batch);
    assert_eq!(
        kept,
        vec![event("1", "joe", "First Joe"), event("2", "ann", "Ann"), event("6", "bob", "Bob")]
    );
    assert!(dedup_first_seen(&Vec::new()).is_empty());
}

#[test]
fn statement_is_a_conflict_ignoring_insert() {
    let e = QueueEvent {
        id: "id-1".to_string(),
        payload: payload("joe", "Joe O'Neil", "1990-05-01", Some(vec!["rust", "go"])),
        tags: Some("rust go".to_string()),
    };
    assert_eq!(values_for(&e), vec!["'id-1'", "'joe'", "'Joe O''Neil'", "'1990-05-01'", "'rust go'"]);
    assert_eq!(
        build_batch(&vec![e]),
        "INSERT INTO PEOPLE (ID, NICKNAME, NOME, BIRTHDATE, STACK) VALUES ('id-1', 'joe', 'Joe O''Neil', '1990-05-01', 'rust go')ON CONFLICT DO NOTHING;"
    );
}

#[test]
fn absent_tags_are_stored_as_empty_text() {
    let e = event("id-2", "ann", "Ann");
    assert_eq!(
        build_batch(&vec![e]),
        "INSERT INTO PEOPLE (ID, NICKNAME, NOME, BIRTHDATE, STACK) VALUES ('id-2', 'ann', 'Ann', '1990-05-01', '')ON CONFLICT DO NOTHING;"
    );
}

#[test]
fn batch_is_one_insert_of_all_rows_in_order() {
    let events = vec![event("1", "a", "A"), event("2", "b", "B"), event("3", "c", "C")];
    assert_eq!(
        build_batch(&events),
        "INSERT INTO PEOPLE (ID, NICKNAME, NOME, BIRTHDATE, STACK) VALUES ('1', 'a', 'A', '1990-05-01', ''), ('2', 'b', 'B', '1990-05-01', ''), ('3', 'c', 'C', '1990-05-01', '')ON CONFLICT DO NOTHING;"
    );
    assert_eq!(build_batch(&Vec::new()), "");
}

#[test]
fn prepare_flush_drains_and_dedups() {
    let mut q = IngestionQueue::new();
    assert_eq!(prepare_flush(&mut q), None);
    q.push(event("1", "joe", "First"));
    q.push(event("2", "joe", "Second"));
    let text = prepare_flush(&mut q);
    assert_eq!(text, Some(build_batch(&vec![event("1", "joe", "First")])));
    assert!(q.is_empty());
}

#[test]
fn stages_follow_each_other() {
    assert_eq!(advance(FlushStage::Acquire, true), FlushStep::Continue(FlushStage::Begin));
    assert_eq!(advance(FlushStage::Begin, true), FlushStep::Continue(FlushStage::Execute));
    assert_eq!(advance(FlushStage::Execute, true), FlushStep::Continue(FlushStage::Commit));
    assert_eq!(advance(FlushStage::Commit, true), FlushStep::Applied);
    for stage in [FlushStage::Acquire, FlushStage::Begin, FlushStage::Execute, FlushStage::Commit] {
        assert_eq!(advance(stage, false), FlushStep::Dropped);
    }
}

#[test]
fn flusher_runs_one_cycle_at_a_time() {
    let mut q = IngestionQueue::new();
    let mut f = Flusher::new();
    assert!(!f.in_flight);
    assert_eq!(f.tick(&mut q), None);
    assert!(!f.in_flight);
    q.push(event("1", "a", "A"));
    assert!(f.tick(&mut q).is_some());
    assert!(f.in_flight);
    q.push(event("2", "b", "B"));
    assert_eq!(f.tick(&mut q), None);
    assert_eq!(q.len(), 1);
    assert_eq!(f.stage_done(FlushStage::Acquire, true), FlushStep::Continue(FlushStage::Begin));
    assert!(f.in_flight);
    assert_eq!(f.stage_done(FlushStage::Begin, true), FlushStep::Continue(FlushStage::Execute));
    assert_eq!(f.stage_done(FlushStage::Execute, true), FlushStep::Continue(FlushStage::Commit));
    assert_eq!(f.stage_done(FlushStage::Commit, true), FlushStep::Applied);
    assert!(!f.in_flight);
    assert_eq!(f.tick(&mut q), Some(build_batch(&vec![event("2", "b", "B")])));
}

#[test]
fn failed_flush_drops_batch_and_next_tick_runs() {
    for failing in [FlushStage::Acquire, FlushStage::Begin, FlushStage::Execute, FlushStage::Commit] {
        let mut q = IngestionQueue::new();
        let mut f = Flusher::new();
        let mut store: Vec<StoredRow> = Vec::new();
        q.push(event("1", "a", "A"));
        assert!(f.tick(&mut q).is_some());
        let mut stage = FlushStage::Acquire;
        let applied = loop {
            match f.stage_done(stage, stage != failing) {
                FlushStep::Continue(next) => stage = next,
                FlushStep::Applied => break true,
                FlushStep::Dropped => break false,
            }
        };
        if applied {
            store.push(row_of(&event("1", "a", "A")));
        }
        assert!(!applied);
        assert!(store.is_empty());
        assert!(!f.in_flight);
        assert!(q.is_empty());
        q.push(event("2", "b", "B"));
        assert!(f.tick(&mut q).is_some());
    }
}

#[test]
fn create_queues_and_returns_the_person() {
    let mut q = IngestionQueue::new();
    let p = payload("joe", "Joe Smith", "1990-05-01", Some(vec!["rust", "go"]));
    let dto = create_dto_and_queue(p.clone(), &"the-id".to_string(), &mut q);
    assert_eq!(
        dto,
        Person {
            id: "the-id".to_string(),
            nickname: "joe".to_string(),
            name: "Joe Smith".to_string(),
            birthdate: "1990-05-01".to_string(),
            tags: Some(vec!["rust".to_string(), "go".to_string()]),
        }
    );
    let batch = q.drain();
    assert_eq!(
        batch,
        vec![QueueEvent { id: "the-id".to_string(), payload: p, tags: Some("rust go".to_string()) }]
    );
}

#[test]
fn begin_create_validates_and_names_the_marker() {
    let good = payload("joe", "Joe Smith", "1990-05-01", None);
    assert_eq!(begin_create(&good), Ok("a/joe".to_string()));
    let bad = payload("joe", "Joe Smith", "1990-05-32", None);
    assert_eq!(begin_create(&bad), Err(ValidationError::InvalidBirthdate));
}

#[test]
fn marker_hit_refuses_before_enqueue() {
    let mut q = IngestionQueue::new();
    let p = payload("joe", "Joe Smith", "1990-05-01", None);
    assert_eq!(
        accept_create(p.clone(), true, &"x".to_string(), &mut q),
        Err(CreateError::Duplicate)
    );
    assert_eq!(complete_create(p, true, &mut q), Err(CreateError::Duplicate));
    assert!(q.is_empty());
}

#[test]
fn fresh_ids_are_hyphenated_and_distinct() {
    let mut q = IngestionQueue::new();
    let p = payload("joe", "Joe Smith", "1990-05-01", None);
    let a = complete_create(p.clone(), false, &mut q).unwrap();
    let b = complete_create(p, false, &mut q).unwrap();
    assert_eq!(a.id.chars().count(), 36);
    assert_eq!(b.id.chars().count(), 36);
    assert_ne!(a.id, b.id);
    assert_eq!(a.id.chars().filter(|c| *c == '-').count(), 4);
    assert!(a.id.chars().all(|c| c == '-' || c.is_ascii_digit() || ('a'..='f').contains(&c)));
    assert_ne!(marker_key("joe"), a.id);
    let batch = q.drain();
    assert_eq!(batch[0].id, a.id);
    assert_eq!(batch[1].id, b.id);
}

#[test]
fn cache_reply_decides_the_read() {
    assert_eq!(after_cache(Some("bytes".to_string())), ReadStep::Respond("bytes".to_string()));
    assert_eq!(after_cache(None), ReadStep::AskStore);
}

#[test]
fn store_reply_decides_the_read() {
    assert_eq!(after_store(None), ReadOutcome::InternalFailure);
    assert_eq!(after_store(Some(Vec::new())), ReadOutcome::NotFound);
    let row = StoredRow {
        id: "1".to_string(),
        nickname: "joe".to_string(),
        name: "Joe".to_string(),
        birthdate: "1990-05-01".to_string(),
        tags: Some("rust go".to_string()),
    };
    let expected = Person {
        id: "1".to_string(),
        nickname: "joe".to_string(),
        name: "Joe".to_string(),
        birthdate: "1990-05-01".to_string(),
        tags: Some(vec!["rust".to_string(), "go".to_string()]),
    };
    assert_eq!(Person::from(&row), expected);
    assert_eq!(first_person(&vec![row.clone()]), Some(expected.clone()));
    assert_eq!(first_person(&Vec::new()), None);
    assert_eq!(after_store(Some(vec![row.clone()])), ReadOutcome::Found(expected.clone()));
    let mut untagged = row.clone();
    untagged.tags = None;
    untagged.id = "2".to_string();
    let people = people_from_rows(&vec![row, untagged]);
    assert_eq!(people.len(), 2);
    assert_eq!(people[0], expected);
    assert_eq!(people[1].tags, None);
    assert_eq!(people[1].id, "2");
}

fn create(
    cache: &mut HashMap<String, String>,
    queue: &mut IngestionQueue,
    p: CreatePerson,
) -> Result<String, CreateError> {
    let key = begin_create(&p).map_err(CreateError::Invalid)?;
    let hit = cache.contains_key(&key);
    let dto = complete_create(p, hit, queue)?;
    cache.insert(dto.id.clone(), body_of(&dto));
    Ok(dto.id)
}

fn read(
    cache: &mut HashMap<String, String>,
    store: Option<&Vec<StoredRow>>,
    id: &str,
    store_calls: &mut usize,
) -> Result<Option<String>, ()> {
    match after_cache(cache.get(id).cloned()) {
        ReadStep::Respond(body) => Ok(Some(body)),
        ReadStep::AskStore => {
            *store_calls += 1;
            let rows = store.map(|s| s.iter().filter(|r| r.id == id).cloned().collect());
            match after_store(rows) {
                ReadOutcome::Found(p) => {
                    let body = body_of(&p);
                    cache.insert(id.to_string(), body.clone());
                    Ok(Some(body))
                }
                ReadOutcome::NotFound => Ok(None),
                ReadOutcome::InternalFailure => Err(()),
            }
        }
    }
}

#[test]
fn created_person_is_read_from_cache_before_any_flush() {
    let mut cache = HashMap::new();
    let mut q = IngestionQueue::new();
    let id = create(&mut cache, &mut q, payload("ann", "Ann Lee", "1985-12-31", None)).unwrap();
    let mut calls = 0;
    let body = read(&mut cache, None, &id, &mut calls).unwrap().unwrap();
    assert!(body.contains("ann") && body.contains("Ann Lee") && body.contains("1985-12-31"));
    assert_eq!(calls, 0);
    assert_eq!(q.len(), 1);
}

#[test]
fn refused_create_queues_and_caches_nothing() {
    let mut cache = HashMap::new();
    let mut q = IngestionQueue::new();
    let r = create(&mut cache, &mut q, payload("ann", "Ann Lee", "1985-12-32", None));
    assert_eq!(r, Err(CreateError::Invalid(ValidationError::InvalidBirthdate)));
    assert!(cache.is_empty());
    assert!(q.is_empty());
    cache.insert("a/ann".to_string(), "1".to_string());
    let r = create(&mut cache, &mut q, payload("ann", "Ann Lee", "1985-12-31", None));
    assert_eq!(r, Err(CreateError::Duplicate));
    assert_eq!(cache.len(), 1);
    assert!(q.is_empty());
}

#[test]
fn read_miss_fills_cache_and_later_read_skips_store() {
    let mut cache = HashMap::new();
    let store = vec![row_of(&event("id-9", "zed", "Zed"))];
    let mut calls = 0;
    assert_eq!(read(&mut cache, Some(&store), "nobody", &mut calls), Ok(None));
    assert_eq!(calls, 1);
    let first = read(&mut cache, Some(&store), "id-9", &mut calls).unwrap().unwrap();
    assert_eq!(calls, 2);
    let second = read(&mut cache, None, "id-9", &mut calls).unwrap().unwrap();
    assert_eq!(calls, 2);
    assert_eq!(first, second);
    assert_eq!(read(&mut cache, None, "other", &mut calls), Err(()));
}

#[test]
fn joe_scenario() {
    let mut cache = HashMap::new();
    let mut q = IngestionQueue::new();
    let mut flusher = Flusher::new();
    let mut store: Vec<StoredRow> = Vec::new();
    let first = create(&mut cache, &mut q, payload("joe", "Joe Smith", "1990-05-01", None)).unwrap();
    let mut calls = 0;
    let body = read(&mut cache, Some(&store), &first, &mut calls).unwrap().unwrap();
    assert!(body.contains("\"joe\""));
    assert!(body.contains("\"Joe Smith\""));
    assert!(body.contains("\"1990-05-01\""));
    assert_eq!(calls, 0);
    let second = create(&mut cache, &mut q, payload("joe", "Other Joe", "1991-01-01", None)).unwrap();
    let third = create(&mut cache, &mut q, payload("joe", "Third Joe", "1992-02-02", None)).unwrap();
    assert_ne!(first, second);
    assert_ne!(second, third);
    assert_eq!(q.len(), 3);
    let mut probe = IngestionQueue::new();
    let batch = q.drain();
    for e in batch.iter() {
        probe.push(e.clone());
    }
    let kept = dedup_first_seen(&batch);
    let text = flusher.tick(&mut probe).unwrap();
    assert_eq!(text, build_batch(&kept));
    assert_eq!(text.matches("INSERT INTO PEOPLE").count(), 1);
    assert_eq!(text.matches("'joe'").count(), 1);
    assert!(text.contains("'Joe Smith'"));
    assert!(text.contains(&first));
    let mut stage = FlushStage::Acquire;
    loop {
        match flusher.stage_done(stage, true) {
            FlushStep::Continue(next) => stage = next,
            FlushStep::Applied => {
                for e in kept.iter() {
                    if !store.iter().any(|r| r.nickname == e.payload.nickname) {
                        store.push(row_of(e));
                    }
                }
                break;
            }
            FlushStep::Dropped => unreachable!(),
        }
    }
    let joes: Vec<&StoredRow> = store.iter().filter(|r| r.nickname == "joe").collect();
    assert_eq!(joes.len(), 1);
    assert_eq!(joes[0].id, first);
    assert_eq!(joes[0].name, "Joe Smith");
}
