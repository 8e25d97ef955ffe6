use vstd::prelude::*;

use mongodb::bson::oid::ObjectId;

use crate::errors::{CustomError, ErrorView};
use crate::model::{PlanetMessage, PlanetRecord};
use crate::object_id::{is_object_id_text, object_id_error_of, parse_object_id};
use crate::text::{lower_of, lowercase};

verus! {

/// Seconds that an entry written to the cache store lives.
pub const CACHE_TTL_SECONDS: u64 = 60;

/// The pub/sub channel on which creations are announced.
pub const NEW_PLANETS_CHANNEL_NAME: &'static str = "new_planets";

/// What the cache store answered to a lookup of a key.
#[derive(Debug)]
pub enum CacheReply {
    /// No entry under the key.
    Nil,
    /// The entry's value.
    Data(Vec<u8>),
    /// An answer of another shape.
    Other,
}

/// A `CacheReply` with its value as a sequence.
pub enum CacheReplyView {
    Nil,
    Data(Seq<u8>),
    Other,
}

impl View for CacheReply {
    type V = CacheReplyView;

    open spec fn view(&self) -> CacheReplyView {
        match self {
            CacheReply::Nil => CacheReplyView::Nil,
            CacheReply::Data(v) => CacheReplyView::Data(v@),
            CacheReply::Other => CacheReplyView::Other,
        }
    }
}

/// What a cached read asks its caller to do next.
#[derive(Debug)]
pub enum ReadStep {
    /// The read is over, with this result.
    Reply(Result<Vec<u8>, CustomError>),
    /// Look the record up in the primary store, by this id.
    FindRecord(ObjectId),
    /// Load the image asset of this file name.
    LoadImage(String),
    /// Write this value under this key in the cache store, with this
    /// time-to-live, in one atomic set-and-expire.
    StoreInCache { key: String, value: Vec<u8>, ttl_seconds: u64 },
}

/// A `ReadStep` over sequences; the id of a primary lookup is left out.
pub enum ReadStepView {
    Reply(Result<Seq<u8>, ErrorView>),
    FindRecord,
    LoadImage(Seq<char>),
    StoreInCache(Seq<char>, Seq<u8>, u64),
}

impl View for ReadStep {
    type V = ReadStepView;

    open spec fn view(&self) -> ReadStepView {
        match self {
            ReadStep::Reply(Ok(v)) => ReadStepView::Reply(Ok(v@)),
            ReadStep::Reply(Err(e)) => ReadStepView::Reply(Err(e@)),
            ReadStep::FindRecord(_) => ReadStepView::FindRecord,
            ReadStep::LoadImage(f) => ReadStepView::LoadImage(f@),
            ReadStep::StoreInCache { key, value, ttl_seconds } => ReadStepView::StoreInCache(
                key@,
                value@,
                *ttl_seconds,
            ),
        }
    }
}

/// What a write asks its caller to do after the primary store answered.
#[derive(Debug)]
pub enum WriteStep {
    /// The write is over, with this error.
    Fail(CustomError),
    /// Delete this key from the cache store, then answer with the value.
    Invalidate { key: String, value: Vec<u8> },
}

/// A `WriteStep` over sequences.
pub enum WriteStepView {
    Fail(ErrorView),
    Invalidate(Seq<char>, Seq<u8>),
}

impl View for WriteStep {
    type V = WriteStepView;

    open spec fn view(&self) -> WriteStepView {
        match self {
            WriteStep::Fail(e) => WriteStepView::Fail(e@),
            WriteStep::Invalidate { key, value } => WriteStepView::Invalidate(key@, value@),
        }
    }
}

/// The contents of an optional byte vector.
pub open spec fn bytes_of(o: Option<Vec<u8>>) -> Option<Seq<u8>> {
    match o {
        Some(v) => Some(v@),
        None => None,
    }
}

/// The contents of an optional string.
pub open spec fn text_of(o: Option<String>) -> Option<Seq<char>> {
    match o {
        Some(s) => Some(s@),
        None => None,
    }
}

/// The cache key of a planet record.
pub open spec fn planet_key(id: Seq<char>) -> Seq<char> {
    "planet:"@ + id
}

/// The cache key of a planet's image.
pub open spec fn image_key(id: Seq<char>) -> Seq<char> {
    "planet:"@ + id + ":image"@
}

/// The file name of the image of a planet with this name.
pub open spec fn image_file_name(name: Seq<char>) -> Seq<char> {
    lower_of(name) + ".jpg"@
}

/// The error for an id that does not parse as an object id.
pub open spec fn bad_id_error(id: Seq<char>) -> ErrorView {
    ErrorView::NotFound(object_id_error_of(id))
}

/// The error for an id under which the primary store holds no record.
pub open spec fn missing_planet_error(id: Seq<char>) -> ErrorView {
    ErrorView::NotFound("Can't find a planet by id: "@ + lower_of(id))
}

/// The error for an id under which an update found no record.
pub open spec fn missing_updated_error(id: Seq<char>) -> ErrorView {
    ErrorView::NotFound("Can't find an updated planet by id: "@ + lower_of(id))
}

/// The error for an id under which a delete found no record.
pub open spec fn missing_deleted_error(id: Seq<char>) -> ErrorView {
    ErrorView::NotFound("Can't delete a planet by id: "@ + lower_of(id))
}

/// The error for an image file that is absent.
pub open spec fn missing_image_error(file_name: Seq<char>) -> ErrorView {
    ErrorView::NotFound("Can't find an image: "@ + file_name)
}

/// The error for a cache answer of an unexpected shape.
pub open spec fn unexpected_reply_error() -> ErrorView {
    ErrorView::Redis("Unexpected response from Redis"@)
}

/// The step of a cached read (of a record or an image) of `id` after the
/// cache store answered the lookup.
pub open spec fn step_after_lookup(id: Seq<char>, reply: CacheReplyView) -> ReadStepView {
    match reply {
        CacheReplyView::Data(v) => ReadStepView::Reply(Ok(v)),
        CacheReplyView::Other => ReadStepView::Reply(Err(unexpected_reply_error())),
        CacheReplyView::Nil => if is_object_id_text(id) {
            ReadStepView::FindRecord
        } else {
            ReadStepView::Reply(Err(bad_id_error(id)))
        },
    }
}

/// The step of a record read of `id` after the primary store answered.
pub open spec fn step_after_record(id: Seq<char>, found: Option<Seq<u8>>) -> ReadStepView {
    match found {
        Some(v) => ReadStepView::StoreInCache(planet_key(id), v, CACHE_TTL_SECONDS),
        None => ReadStepView::Reply(Err(missing_planet_error(id))),
    }
}

/// The step of an image read of `id` after the primary store answered with
/// the planet's name, if it holds the planet.
pub open spec fn step_after_image_record(id: Seq<char>, name: Option<Seq<char>>) -> ReadStepView {
    match name {
        Some(n) => ReadStepView::LoadImage(image_file_name(n)),
        None => ReadStepView::Reply(Err(missing_planet_error(id))),
    }
}

/// The step of an image read of `id` after the asset store answered.
pub open spec fn step_after_image(
    id: Seq<char>,
    file_name: Seq<char>,
    image: Option<Seq<u8>>,
) -> ReadStepView {
    match image {
        Some(b) => ReadStepView::StoreInCache(image_key(id), b, CACHE_TTL_SECONDS),
        None => ReadStepView::Reply(Err(missing_image_error(file_name))),
    }
}

/// The step of an update of `id` after the primary store answered with the
/// updated record, if it holds one.
pub open spec fn step_after_update(id: Seq<char>, found: Option<Seq<u8>>) -> WriteStepView {
    match found {
        Some(v) => WriteStepView::Invalidate(planet_key(id), v),
        None => WriteStepView::Fail(missing_updated_error(id)),
    }
}

/// The cache store's answer to a lookup of `key` while it holds `cache`.
pub open spec fn lookup_in(cache: Map<Seq<char>, Seq<u8>>, key: Seq<char>) -> CacheReplyView {
    if cache.contains_key(key) {
        CacheReplyView::Data(cache[key])
    } else {
        CacheReplyView::Nil
    }
}

/// The primary store's answer to a lookup of `id` while it holds `primary`.
pub open spec fn find_in(primary: Map<Seq<char>, Seq<u8>>, id: Seq<char>) -> Option<Seq<u8>> {
    if primary.contains_key(id) {
        Some(primary[id])
    } else {
        None
    }
}

/// A whole operation against the two stores: its answer, what the stores
/// hold afterwards, and how many times it asked the primary store.
pub struct StoreRun {
    pub result: Result<Seq<u8>, ErrorView>,
    pub cache: Map<Seq<char>, Seq<u8>>,
    pub primary: Map<Seq<char>, Seq<u8>>,
    pub primary_lookups: nat,
}

/// A record read of `id`, step by step, against stores that hold `cache`
/// and `primary` and answer without failing; the cache write lands.
pub open spec fn record_read_run(
    cache: Map<Seq<char>, Seq<u8>>,
    primary: Map<Seq<char>, Seq<u8>>,
    id: Seq<char>,
) -> StoreRun {
    match step_after_lookup(id, lookup_in(cache, planet_key(id))) {
        ReadStepView::FindRecord => match step_after_record(id, find_in(primary, id)) {
            ReadStepView::StoreInCache(key, value, _) => StoreRun {
                result: Ok(value),
                cache: cache.insert(key, value),
                primary,
                primary_lookups: 1,
            },
            ReadStepView::Reply(r) => StoreRun { result: r, cache, primary, primary_lookups: 1 },
            _ => StoreRun { result: Err(ErrorView::Internal), cache, primary, primary_lookups: 1 },
        },
        ReadStepView::Reply(r) => StoreRun { result: r, cache, primary, primary_lookups: 0 },
        _ => StoreRun { result: Err(ErrorView::Internal), cache, primary, primary_lookups: 0 },
    }
}

/// An update of `id` to `value`, step by step, against stores that hold
/// `cache` and `primary` and answer without failing.
pub open spec fn update_run(
    cache: Map<Seq<char>, Seq<u8>>,
    primary: Map<Seq<char>, Seq<u8>>,
    id: Seq<char>,
    value: Seq<u8>,
) -> StoreRun {
    if !is_object_id_text(id) {
        StoreRun { result: Err(bad_id_error(id)), cache, primary, primary_lookups: 0 }
    } else {
        let primary2 = primary.insert(id, value);
        match step_after_update(id, find_in(primary2, id)) {
            WriteStepView::Invalidate(key, v) => StoreRun {
                result: Ok(v),
                cache: cache.remove(key),
                primary: primary2,
                primary_lookups: 1,
            },
            WriteStepView::Fail(e) => StoreRun {
                result: Err(e),
                cache,
                primary: primary2,
                primary_lookups: 1,
            },
        }
    }
}

/// A read that follows a read of the same id, with the entry still live,
/// gives the same answer; when the first one succeeded, the second is served
/// from the cache and leaves it as it was.
pub proof fn lemma_repeated_read_hits_cache(
    cache: Map<Seq<char>, Seq<u8>>,
    primary: Map<Seq<char>, Seq<u8>>,
    id: Seq<char>,
)
    ensures
        ({
            let first = record_read_run(cache, primary, id);
            let second = record_read_run(first.cache, primary, id);
            &&& second.result == first.result
            &&& first.result is Ok ==> second.primary_lookups == 0 && second.cache == first.cache
        }),
{
    let first = record_read_run(cache, primary, id);
    let key = planet_key(id);
    if !cache.contains_key(key) && is_object_id_text(id) && primary.contains_key(id) {
        assert(first.cache == cache.insert(key, primary[id]));
        assert(first.cache.contains_key(key));
        assert(first.cache[key] == primary[id]);
        assert(first.cache.insert(key, primary[id]) =~= first.cache);
    }
}

/// A read that follows an update of the same id answers with the updated
/// value, though a value from before the update was cached.
pub proof fn lemma_read_after_update(
    cache: Map<Seq<char>, Seq<u8>>,
    primary: Map<Seq<char>, Seq<u8>>,
    id: Seq<char>,
    value: Seq<u8>,
)
    ensures
        ({
            let updated = update_run(cache, primary, id, value);
            updated.result is Ok ==> record_read_run(updated.cache, updated.primary, id).result
                == Ok::<Seq<u8>, ErrorView>(value)
        }),
{
    let updated = update_run(cache, primary, id, value);
    if is_object_id_text(id) {
        assert(updated.primary.contains_key(id));
        assert(!updated.cache.contains_key(planet_key(id)));
    }
}

/// The planet service: cache-aside reads and invalidating writes of planet
/// records and images, and the notification of creations. Each operation is
/// a sequence of steps; the caller performs the store calls that the steps
/// name and hands back what the stores answered.
///
/// A create stores the planet and then publishes its notification; a failed
/// publish fails the create although the planet stays stored, so a failed
/// create may have left a record behind. Concurrent misses on one key may each
/// load and write the cache; the last write wins.
#[derive(Debug)]
pub struct PlanetService {}

impl PlanetService {
    pub fn new() -> (r: Self) {
        PlanetService {  }
    }

    /// The cache key of the record of `planet_id`.
    pub fn get_planet_cache_key(&self, planet_id: &str) -> (r: String)
        ensures
            r@ == planet_key(planet_id@),
    {
        let mut key = String::from_str("planet:");
        key.append(planet_id);
        key
    }

    /// The cache key of the image of `planet_id`.
    pub fn get_image_cache_key(&self, planet_id: &str) -> (r: String)
        ensures
            r@ == image_key(planet_id@),
    {
        let mut key = String::from_str("planet:");
        key.append(planet_id);
        key.append(":image");
        key
    }

    /// The id of a planet as the primary store takes it; an id that is not
    /// 24 hexadecimal digits names nothing.
    pub fn parse_planet_id(&self, planet_id: &str) -> (r: Result<ObjectId, CustomError>)
        ensures
            r is Ok <==> is_object_id_text(planet_id@),
            r matches Err(e) ==> e@ == bad_id_error(planet_id@),
    {
        match parse_object_id(planet_id) {
            Ok(id) => Ok(id),
            Err(message) => Err(CustomError::NotFound { message }),
        }
    }

    /// A cached read of `planet_id`, record or image, after the cache store
    /// answered the lookup of its key: a hit is the answer, a miss goes to
    /// the primary store, any other answer fails.
    pub fn after_lookup(&self, planet_id: &str, reply: CacheReply) -> (r: ReadStep)
        ensures
            r@ == step_after_lookup(planet_id@, reply@),
    {
        match reply {
            CacheReply::Data(v) => ReadStep::Reply(Ok(v)),
            CacheReply::Other => ReadStep::Reply(
                Err(
                    CustomError::RedisError {
                        message: String::from_str("Unexpected response from Redis"),
                    },
                ),
            ),
            CacheReply::Nil => match self.parse_planet_id(planet_id) {
                Ok(id) => ReadStep::FindRecord(id),
                Err(e) => ReadStep::Reply(Err(e)),
            },
        }
    }

    fn missing(&self, prefix: &str, planet_id: &str) -> (r: CustomError)
        ensures
            r@ == ErrorView::NotFound(prefix@ + lower_of(planet_id@)),
    {
        let mut message = String::from_str(prefix);
        let id = lowercase(planet_id);
        message.append(id.as_str());
        CustomError::NotFound { message }
    }

    /// A record read of `planet_id` after the primary store answered: a
    /// found record is written to the cache, an absent one is NotFound.
    pub fn after_record(&self, planet_id: &str, found: Option<Vec<u8>>) -> (r: ReadStep)
        ensures
            r@ == step_after_record(planet_id@, bytes_of(found)),
    {
        match found {
            Some(value) => ReadStep::StoreInCache {
                key: self.get_planet_cache_key(planet_id),
                value,
                ttl_seconds: CACHE_TTL_SECONDS,
            },
            None => ReadStep::Reply(Err(self.missing("Can't find a planet by id: ", planet_id))),
        }
    }

    /// An image read of `planet_id` after the primary store answered with the
    /// planet's name: the image is loaded from the file named after the
    /// lowercase name.
    pub fn after_image_record(&self, planet_id: &str, name: Option<String>) -> (r: ReadStep)
        ensures
            r@ == step_after_image_record(planet_id@, text_of(name)),
    {
        match name {
            Some(name) => {
                let mut file_name = lowercase(name.as_str());
                file_name.append(".jpg");
                ReadStep::LoadImage(file_name)
            },
            None => ReadStep::Reply(Err(self.missing("Can't find a planet by id: ", planet_id))),
        }
    }

    /// An image read of `planet_id` after the asset `file_name` was loaded:
    /// a found image is written to the cache, an absent one is NotFound.
    pub fn after_image(&self, planet_id: &str, file_name: &str, image: Option<Vec<u8>>) -> (r:
        ReadStep)
        ensures
            r@ == step_after_image(planet_id@, file_name@, bytes_of(image)),
    {
        match image {
            Some(value) => ReadStep::StoreInCache {
                key: self.get_image_cache_key(planet_id),
                value,
                ttl_seconds: CACHE_TTL_SECONDS,
            },
            None => {
                let mut message = String::from_str("Can't find an image: ");
                message.append(file_name);
                ReadStep::Reply(Err(CustomError::NotFound { message }))
            },
        }
    }

    /// The end of a cached read after the cache was written: the loaded value
    /// is the answer whether or not the write succeeded, since the cache is
    /// only a hint.
    pub fn after_store(&self, value: Vec<u8>, stored: Result<(), CustomError>) -> (r: Result<
        Vec<u8>,
        CustomError,
    >)
        ensures
            r matches Ok(v) && v@ == value@,
    {
        Ok(value)
    }

    /// An update of `planet_id` after the primary store answered with the
    /// updated record: the cache entry is invalidated, not rewritten.
    pub fn after_update(&self, planet_id: &str, found: Option<Vec<u8>>) -> (r: WriteStep)
        ensures
            r@ == step_after_update(planet_id@, bytes_of(found)),
    {
        match found {
            Some(value) => WriteStep::Invalidate { key: self.get_planet_cache_key(planet_id), value },
            None => WriteStep::Fail(self.missing("Can't find an updated planet by id: ", planet_id)),
        }
    }

    /// A delete of `planet_id` after the primary store answered whether it
    /// held the record: the key to invalidate, or NotFound.
    pub fn after_delete(&self, planet_id: &str, deleted: bool) -> (r: Result<String, CustomError>)
        ensures
            deleted ==> (r matches Ok(k) && k@ == planet_key(planet_id@)),
            !deleted ==> (r matches Err(e) && e@ == missing_deleted_error(planet_id@)),
    {
        if deleted {
            Ok(self.get_planet_cache_key(planet_id))
        } else {
            Err(self.missing("Can't delete a planet by id: ", planet_id))
        }
    }

    /// A create after the primary store answered with the stored planet: the
    /// notification to publish. An absent planet is NotFound; a stored planet
    /// without identity is a malformed answer.
    pub fn after_create(&self, created: Option<PlanetRecord>) -> (r: Result<
        PlanetMessage,
        CustomError,
    >)
        ensures
            match created {
                None => (r matches Err(e) && e@ == ErrorView::NotFound(
                    "Can't find a created planet"@,
                )),
                Some(p) => match p.id {
                    None => (r matches Err(e) && e@ == ErrorView::Internal),
                    Some(id) => (r matches Ok(m) && m.id@ == id@ && m.name@ == p.name@
                        && m.planet_type == p.planet_type),
                },
            },
    {
        match created {
            None => Err(
                CustomError::NotFound { message: String::from_str("Can't find a created planet") },
            ),
            Some(planet) => match PlanetMessage::from_record(&planet) {
                Some(m) => Ok(m),
                None => Err(CustomError::InternalError),
            },
        }
    }
}

} // verus!
