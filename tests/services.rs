use std::collections::HashMap;

use mongodb::bson::oid::ObjectId;
use mongodb_redis::broadcaster::{new_planet_frame, Broadcaster};
use mongodb_redis::errors::CustomError;
use mongodb_redis::model::{PlanetRecord, PlanetType};
use mongodb_redis::services::{CacheReply, PlanetService, ReadStep, WriteStep, CACHE_TTL_SECONDS};

const ID: &str = "5f1b2c3d4e5f6a7b8c9d0e1f";

struct Stores {
    cache: HashMap<String, Vec<u8>>,
    primary: HashMap<String, Vec<u8>>,
    primary_lookups: usize,
}

impl Stores {
    fn new() -> Self {
        Stores { cache: HashMap::new(), primary: HashMap::new(), primary_lookups: 0 }
    }
}

// Runs a record read against in-memory stores, as the application does
// against the real ones.
fn read(service: &PlanetService, stores: &mut Stores, id: &str) -> Result<Vec<u8>, CustomError> {
    let key = service.get_planet_cache_key(id);
    let reply = match stores.cache.get(&key) {
        Some(v) => CacheReply::Data(v.clone()),
        None => CacheReply::Nil,
    };
    let mut step = service.after_lookup(id, reply);
    loop {
        step = match step {
            ReadStep::Reply(r) => return r,
            ReadStep::FindRecord(oid) => {
                stores.primary_lookups += 1;
                service.after_record(id, stores.primary.get(&oid.to_hex()).cloned())
            }
            ReadStep::LoadImage(_) => panic!("a record read loads no image"),
            ReadStep::StoreInCache { key, value, ttl_seconds } => {
                assert_eq!(ttl_seconds, 60);
                stores.cache.insert(key, value.clone());
                return service.after_store(value, Ok(()));
            }
        };
    }
}

fn update(service: &PlanetService, stores: &mut Stores, id: &str, v: &[u8]) -> Result<Vec<u8>, CustomError> {
    let oid = service.parse_planet_id(id)?;
    stores.primary.insert(oid.to_hex(), v.to_vec());
    match service.after_update(id, stores.primary.get(&oid.to_hex()).cloned()) {
        WriteStep::Fail(e) => Err(e),
        WriteStep::Invalidate { key, value } => {
            stores.cache.remove(&key);
            Ok(value)
        }
    }
}

#[test]
fn cache_keys() {
    let s = PlanetService::new();
    assert_eq!(s.get_planet_cache_key(ID), format!("planet:{}", ID));
    assert_eq!(s.get_image_cache_key(ID), format!("planet:{}:image", ID));
    assert_eq!(CACHE_TTL_SECONDS, 60);
}

#[test]
fn parse_planet_id_accepts_24_hex_digits() {
    let s = PlanetService::new();
    let oid = s.parse_planet_id("5F1B2C3D4E5F6A7B8C9D0E1F").unwrap();
    assert_eq!(oid.to_hex(), ID);
    match s.parse_planet_id("abc") {
        Err(CustomError::NotFound { message }) => assert_eq!(
            message,
            "provided hex string representation must be exactly 12 bytes, instead got: \"abc\", length 3"
        ),
        _ => panic!("a short id names nothing"),
    }
    assert!(matches!(
        s.parse_planet_id("zz1b2c3d4e5f6a7b8c9d0e1f"),
        Err(CustomError::NotFound { .. })
    ));
}

#[test]
fn lookup_hit_miss_and_odd_reply() {
    let s = PlanetService::new();
    match s.after_lookup(ID, CacheReply::Data(vec![1, 2, 3])) {
        ReadStep::Reply(Ok(v)) => assert_eq!(v, vec![1, 2, 3]),
        _ => panic!("a hit is the answer"),
    }
    match s.after_lookup(ID, CacheReply::Nil) {
        ReadStep::FindRecord(oid) => assert_eq!(oid, ObjectId::parse_str(ID).unwrap()),
        _ => panic!("a miss goes to the primary store"),
    }
    match s.after_lookup(ID, CacheReply::Other) {
        ReadStep::Reply(Err(CustomError::RedisError { message })) => {
            assert_eq!(message, "Unexpected response from Redis")
        }
        _ => panic!("an odd reply fails"),
    }
    assert!(matches!(
        s.after_lookup("not-an-id", CacheReply::Nil),
        ReadStep::Reply(Err(CustomError::NotFound { .. }))
    ));
}

#[test]
fn read_of_missing_planet_is_not_found() {
    let s = PlanetService::new();
    let mut stores = Stores::new();
    match read(&s, &mut stores, "000000000000000000000000") {
        Err(CustomError::NotFound { message }) => {
            assert_eq!(message, "Can't find a planet by id: 000000000000000000000000")
        }
        _ => panic!("an empty store holds no planet"),
    }
    assert!(stores.cache.is_empty());
}

#[test]
fn miss_populates_the_cache() {
    let s = PlanetService::new();
    match s.after_record(ID, Some(vec![9, 8])) {
        ReadStep::StoreInCache { key, value, ttl_seconds } => {
            assert_eq!(key, format!("planet:{}", ID));
            assert_eq!(value, vec![9, 8]);
            assert_eq!(ttl_seconds, 60);
        }
        _ => panic!("a loaded record is cached"),
    }
    match s.after_record("5F1B2C3D4E5F6A7B8C9D0E1F", None) {
        ReadStep::Reply(Err(CustomError::NotFound { message })) => {
            assert_eq!(message, format!("Can't find a planet by id: {}", ID))
        }
        _ => panic!("an absent record is not found"),
    }
}

#[test]
fn failed_cache_write_still_answers() {
    let s = PlanetService::new();
    let failed = Err(CustomError::RedisError { message: "down".to_string() });
    assert_eq!(s.after_store(vec![4, 5], failed).unwrap(), vec![4, 5]);
    assert_eq!(s.after_store(vec![], Ok(())).unwrap(), Vec::<u8>::new());
}

#[test]
fn repeated_read_is_served_from_cache() {
    let s = PlanetService::new();
    let mut stores = Stores::new();
    stores.primary.insert(ID.to_string(), b"{\"name\":\"Mars\"}".to_vec());
    let first = read(&s, &mut stores, ID).unwrap();
    assert_eq!(stores.primary_lookups, 1);
    let second = read(&s, &mut stores, ID).unwrap();
    assert_eq!(first, second);
    assert_eq!(stores.primary_lookups, 1);
}

#[test]
fn read_after_update_sees_new_value() {
    let s = PlanetService::new();
    let mut stores = Stores::new();
    stores.primary.insert(ID.to_string(), b"old".to_vec());
    assert_eq!(read(&s, &mut stores, ID).unwrap(), b"old".to_vec());
    assert_eq!(update(&s, &mut stores, ID, b"new").unwrap(), b"new".to_vec());
    assert_eq!(read(&s, &mut stores, ID).unwrap(), b"new".to_vec());
    assert_eq!(stores.primary_lookups, 2);
}

#[test]
fn update_and_delete_of_missing_record() {
    let s = PlanetService::new();
    match s.after_update(ID, None) {
        WriteStep::Fail(CustomError::NotFound { message }) => {
            assert_eq!(message, format!("Can't find an updated planet by id: {}", ID))
        }
        _ => panic!("an update of nothing fails"),
    }
    match s.after_delete(ID, false) {
        Err(CustomError::NotFound { message }) => {
            assert_eq!(message, format!("Can't delete a planet by id: {}", ID))
        }
        _ => panic!("a delete of nothing fails"),
    }
    assert_eq!(s.after_delete(ID, true).unwrap(), format!("planet:{}", ID));
}

#[test]
fn image_read_steps() {
    let s = PlanetService::new();
    match s.after_image_record(ID, Some("Ceres".to_string())) {
        ReadStep::LoadImage(file) => assert_eq!(file, "ceres.jpg"),
        _ => panic!("the image is loaded by the planet's name"),
    }
    assert!(matches!(
        s.after_image_record(ID, None),
        ReadStep::Reply(Err(CustomError::NotFound { .. }))
    ));
    match s.after_image(ID, "ceres.jpg", Some(vec![0xff, 0xd8])) {
        ReadStep::StoreInCache { key, value, ttl_seconds } => {
            assert_eq!(key, format!("planet:{}:image", ID));
            assert_eq!(value, vec![0xff, 0xd8]);
            assert_eq!(ttl_seconds, 60);
        }
        _ => panic!("a loaded image is cached"),
    }
    match s.after_image(ID, "vulcan.jpg", None) {
        ReadStep::Reply(Err(CustomError::NotFound { message })) => {
            assert_eq!(message, "Can't find an image: vulcan.jpg")
        }
        _ => panic!("an absent image is not found"),
    }
}

#[test]
fn create_steps() {
    let s = PlanetService::new();
    match s.after_create(None) {
        Err(CustomError::NotFound { message }) => assert_eq!(message, "Can't find a created planet"),
        _ => panic!("a created planet that cannot be found fails"),
    }
    let no_id = PlanetRecord { id: None, name: "X".to_string(), planet_type: PlanetType::GasGiant };
    assert!(matches!(s.after_create(Some(no_id)), Err(CustomError::InternalError)));
}

#[test]
fn created_planet_reaches_subscriber() {
    let s = PlanetService::new();
    let mut registry = Broadcaster::new();
    let client = registry.new_client().unwrap();
    let stored = PlanetRecord {
        id: Some(ObjectId::new().to_hex()),
        name: "Ceres".to_string(),
        planet_type: PlanetType::DwarfPlanet,
    };
    let message = s.after_create(Some(stored)).unwrap();
    assert_eq!(message.id.len(), 24);
    assert_eq!(message.name, "Ceres");
    let mut body = serde_json::Map::new();
    body.insert("id".to_string(), serde_json::Value::String(message.id.clone()));
    body.insert("name".to_string(), serde_json::Value::String(message.name.clone()));
    body.insert("type".to_string(), serde_json::Value::String(message.planet_type.name()));
    let payload = serde_json::Value::Object(body).to_string();
    let frame = new_planet_frame(&payload);
    assert!(frame.contains("Ceres"));
    assert!(frame.contains("DwarfPlanet"));
    assert!(frame.contains(&message.id));
    assert_eq!(registry.send(), vec![client]);
}
