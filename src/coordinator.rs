//! The coordinator of one request attempt: claim the key, or replay what an
//! earlier attempt saved; after processing, save the response for replay.
//!
//! Each decision is a function of plain values, so that a driver over any
//! cache can run it: `begin_processing` says whether to claim and under which
//! key, `on_read` turns what a lost claim finds into the attempt's outcome,
//! and `plan_save` says what to write once the response is built.
//! `try_processing` and `save_response` run the same decisions against a
//! `ReservationStore`.

use vstd::prelude::*;
use crate::config::{IdempotencyEngine, IdempotencySettings};
use crate::key::{IdempotencyKey, KeyError, MAX_KEY_LEN, key_accepted, key_refusal};
use crate::response::{IdempotencyData, ResponseView, CodecError, decoded, encoded, representable};
use crate::store::{
    ClaimOutcome,
    Entry,
    RecordView,
    Reservation,
    ReservationStore,
    StoreView,
    claim_step,
    is_live,
    overwrite_step,
    read_step,
};
use crate::text::{trimmed, utf8_len};

verus! {

/// Why an attempt could not go on.
#[derive(Debug, Clone, Copy, PartialEq, Eq, Structural)]
pub enum IdempotencyError {
    /// The client's key is malformed.
    KeyValidation(KeyError),
    /// Another attempt holds the key and has not saved its response yet.
    ExpectedResponseNotFound,
    /// A stored response could not be read.
    Decoding,
    /// A response could not be written.
    Encoding,
    /// The configured engine is not wired up.
    UnsupportedEngine,
    /// The cache or the database could not be reached.
    StoreConnectivity,
}

impl IdempotencyError {
    /// Maps a codec failure.
    pub fn from_codec(e: CodecError) -> (r: IdempotencyError)
        ensures
            e == CodecError::Encoding ==> r == IdempotencyError::Encoding,
            e == CodecError::Decoding ==> r == IdempotencyError::Decoding,
    {
        match e {
            CodecError::Encoding => IdempotencyError::Encoding,
            CodecError::Decoding => IdempotencyError::Decoding,
        }
    }

    /// The HTTP status that answers this error: 400 for a malformed key,
    /// 409 while another attempt holds the key, 500 otherwise.
    pub fn status_code(&self) -> (r: u16)
        ensures
            r == (match *self {
                IdempotencyError::KeyValidation(_) => 400u16,
                IdempotencyError::ExpectedResponseNotFound => 409u16,
                _ => 500u16,
            }),
    {
        match self {
            IdempotencyError::KeyValidation(_) => 400,
            IdempotencyError::ExpectedResponseNotFound => 409,
            _ => 500,
        }
    }
}

/// What the attempt does next.
#[derive(Debug)]
pub enum RedisPersistenceNextAction {
    /// Run the business logic; this attempt owns the key.
    StartProcessing,
    /// Answer with this saved response; run nothing.
    ReturnSavedData(IdempotencyData),
}

/// The first step of an attempt.
#[derive(Debug)]
pub enum ProcessingStep {
    /// Run the business logic without touching the cache.
    StartProcessing,
    /// Claim `key` with a placeholder living `ttl_seconds`.
    Claim { key: String, ttl_seconds: u64 },
}

/// What to write once the response is built.
#[derive(Debug)]
pub enum SaveStep {
    /// Nothing: idempotency is off.
    Done,
    /// Overwrite `key` with `payload`, living `ttl_seconds`.
    Overwrite { key: String, payload: Vec<u8>, ttl_seconds: u64 },
}

/// The cache key of a raw client key: the namespace, a colon, and the
/// trimmed key.
pub open spec fn cache_key(prefix: Seq<char>, raw: Seq<char>) -> Seq<char> {
    prefix + seq![':'] + trimmed(raw)
}

pub open spec fn stored_view(stored: Option<Reservation>) -> Option<RecordView> {
    match stored {
        Some(x) => Some(x@),
        None => None,
    }
}

/// The outcome of an attempt whose claim was lost, from what the store holds
/// for the key: the saved response, or the reason there is none to replay.
/// A placeholder, a missing entry and a response with status 0 are all
/// "not found yet".
pub open spec fn replay_result(stored: Option<RecordView>) -> Result<ResponseView, IdempotencyError> {
    match stored {
        Some(RecordView::Complete(b)) => match decoded(b) {
            Some(x) => if x.status == 0 {
                Err(IdempotencyError::ExpectedResponseNotFound)
            } else {
                Ok(x)
            },
            None => Err(IdempotencyError::Decoding),
        },
        _ => Err(IdempotencyError::ExpectedResponseNotFound),
    }
}

/// The store after an attempt starts, and its outcome: `Ok(None)` to
/// process, `Ok(Some(x))` to replay `x`.
pub open spec fn processing_outcome(
    m: StoreView,
    raw: Seq<char>,
    s: IdempotencySettings,
    now: u64,
) -> (StoreView, Result<Option<ResponseView>, IdempotencyError>) {
    match s.engine {
        IdempotencyEngine::Disabled => (m, Ok(None)),
        IdempotencyEngine::Postgres => (m, Err(IdempotencyError::UnsupportedEngine)),
        IdempotencyEngine::Redis => if !key_accepted(raw) {
            (m, Err(IdempotencyError::KeyValidation(key_refusal(raw))))
        } else {
            let k = cache_key(s.redis_key_prefix@, raw);
            let (m2, claimed) = claim_step(m, k, s.ttl_seconds, now);
            if claimed {
                (m2, Ok(None))
            } else {
                match replay_result(read_step(m2, k, now)) {
                    Ok(x) => (m2, Ok(Some(x))),
                    Err(e) => (m2, Err(e)),
                }
            }
        },
    }
}

pub open spec fn action_view(r: Result<RedisPersistenceNextAction, IdempotencyError>) -> Result<
    Option<ResponseView>,
    IdempotencyError,
> {
    match r {
        Ok(RedisPersistenceNextAction::StartProcessing) => Ok(None),
        Ok(RedisPersistenceNextAction::ReturnSavedData(d)) => Ok(Some(d@)),
        Err(e) => Err(e),
    }
}

/// The store after the response `x` of an attempt with key `raw` is saved.
pub open spec fn saved_store(
    m: StoreView,
    raw: Seq<char>,
    s: IdempotencySettings,
    x: ResponseView,
    now: u64,
) -> StoreView {
    match s.engine {
        IdempotencyEngine::Redis => overwrite_step(
            m,
            cache_key(s.redis_key_prefix@, raw),
            encoded(x),
            s.ttl_seconds,
            now,
        ),
        _ => m,
    }
}

/// The outcomes of attempts with key `raw` made one after another at the
/// instants `times`, starting from the store `m`.
pub open spec fn attempt_outcomes(
    m: StoreView,
    raw: Seq<char>,
    s: IdempotencySettings,
    times: Seq<u64>,
) -> Seq<Result<Option<ResponseView>, IdempotencyError>>
    decreases times.len(),
{
    if times.len() == 0 {
        Seq::empty()
    } else {
        let (m2, outcome) = processing_outcome(m, raw, s, times[0]);
        seq![outcome] + attempt_outcomes(m2, raw, s, times.drop_first())
    }
}

proof fn lemma_replays_from(
    m: StoreView,
    raw: Seq<char>,
    s: IdempotencySettings,
    x: ResponseView,
    times: Seq<u64>,
)
    requires
        s.engine == IdempotencyEngine::Redis,
        key_accepted(raw),
        x.status != 0,
        decoded(encoded(x)) == Some(x),
        m.contains_key(cache_key(s.redis_key_prefix@, raw)),
        m[cache_key(s.redis_key_prefix@, raw)].record == RecordView::Complete(encoded(x)),
        forall|i: int|
            0 <= i < times.len() ==> #[trigger] times[i] < m[cache_key(
                s.redis_key_prefix@,
                raw,
            )].expires_at,
    ensures
        attempt_outcomes(m, raw, s, times).len() == times.len(),
        forall|i: int|
            0 <= i < times.len() ==> #[trigger] attempt_outcomes(m, raw, s, times)[i] == Ok::<
                Option<ResponseView>,
                IdempotencyError,
            >(Some(x)),
    decreases times.len(),
{
    if times.len() > 0 {
        let rest = times.drop_first();
        assert(processing_outcome(m, raw, s, times[0]) == (m, Ok::<
            Option<ResponseView>,
            IdempotencyError,
        >(Some(x))));
        lemma_replays_from(m, raw, s, x, rest);
        let outs = attempt_outcomes(m, raw, s, times);
        assert(outs == seq![Ok::<Option<ResponseView>, IdempotencyError>(Some(x))]
            + attempt_outcomes(m, raw, s, rest));
        assert forall|i: int| 0 <= i < times.len() implies #[trigger] outs[i] == Ok::<
            Option<ResponseView>,
            IdempotencyError,
        >(Some(x)) by {
            if i > 0 {
                assert(outs[i] == attempt_outcomes(m, raw, s, rest)[i - 1]);
            }
        }
    }
}

/// Replay fidelity: once the response `x` of an attempt with key `raw` has
/// been saved at `t` (so that its encoded form reads back as `x`), any number
/// of later attempts with that key within the time-to-live each replay
/// exactly `x`: the same status, the same headers in the same order and
/// count, the same body.
pub proof fn lemma_replay_fidelity(
    m: StoreView,
    raw: Seq<char>,
    s: IdempotencySettings,
    x: ResponseView,
    t: u64,
    times: Seq<u64>,
)
    requires
        s.engine == IdempotencyEngine::Redis,
        key_accepted(raw),
        x.status != 0,
        decoded(encoded(x)) == Some(x),
        t + s.ttl_seconds <= u64::MAX,
        forall|i: int| 0 <= i < times.len() ==> #[trigger] times[i] < t + s.ttl_seconds,
    ensures
        attempt_outcomes(saved_store(m, raw, s, x, t), raw, s, times).len() == times.len(),
        forall|i: int|
            0 <= i < times.len() ==> #[trigger] attempt_outcomes(
                saved_store(m, raw, s, x, t),
                raw,
                s,
                times,
            )[i] == Ok::<Option<ResponseView>, IdempotencyError>(Some(x)),
{
    lemma_replays_from(saved_store(m, raw, s, x, t), raw, s, x, times);
}

proof fn lemma_conflicts_while_pending(
    m: StoreView,
    raw: Seq<char>,
    s: IdempotencySettings,
    times: Seq<u64>,
)
    requires
        s.engine == IdempotencyEngine::Redis,
        key_accepted(raw),
        m.contains_key(cache_key(s.redis_key_prefix@, raw)),
        m[cache_key(s.redis_key_prefix@, raw)].record == RecordView::Pending,
        forall|i: int|
            0 <= i < times.len() ==> #[trigger] times[i] < m[cache_key(
                s.redis_key_prefix@,
                raw,
            )].expires_at,
    ensures
        attempt_outcomes(m, raw, s, times).len() == times.len(),
        forall|i: int|
            0 <= i < times.len() ==> #[trigger] attempt_outcomes(m, raw, s, times)[i] == Err::<
                Option<ResponseView>,
                IdempotencyError,
            >(IdempotencyError::ExpectedResponseNotFound),
    decreases times.len(),
{
    if times.len() > 0 {
        let rest = times.drop_first();
        lemma_conflicts_while_pending(m, raw, s, rest);
        let outs = attempt_outcomes(m, raw, s, times);
        assert(outs == seq![Err::<Option<ResponseView>, IdempotencyError>(IdempotencyError::ExpectedResponseNotFound)]
            + attempt_outcomes(m, raw, s, rest));
        assert forall|i: int| 0 <= i < times.len() implies #[trigger] outs[i] == Err::<
            Option<ResponseView>,
            IdempotencyError,
        >(IdempotencyError::ExpectedResponseNotFound) by {
            if i > 0 {
                assert(outs[i] == attempt_outcomes(m, raw, s, rest)[i - 1]);
            }
        }
    }
}

/// One processor per key: of attempts with one valid key made within the
/// time-to-live of the first, on a store where the key holds no live entry
/// when the first is made, the first processes and, until a response is
/// saved, every other one is answered with a conflict, so the business
/// logic runs exactly once.
pub proof fn lemma_single_processor(
    m: StoreView,
    raw: Seq<char>,
    s: IdempotencySettings,
    times: Seq<u64>,
)
    requires
        s.engine == IdempotencyEngine::Redis,
        key_accepted(raw),
        times.len() >= 1,
        !is_live(m, cache_key(s.redis_key_prefix@, raw), times[0]),
        times[0] + s.ttl_seconds <= u64::MAX,
        forall|i: int| 0 <= i < times.len() ==> #[trigger] times[i] < times[0] + s.ttl_seconds,
    ensures
        attempt_outcomes(m, raw, s, times).len() == times.len(),
        attempt_outcomes(m, raw, s, times)[0] == Ok::<Option<ResponseView>, IdempotencyError>(
            None,
        ),
        forall|i: int|
            1 <= i < times.len() ==> #[trigger] attempt_outcomes(m, raw, s, times)[i] == Err::<
                Option<ResponseView>,
                IdempotencyError,
            >(IdempotencyError::ExpectedResponseNotFound),
{
    let k = cache_key(s.redis_key_prefix@, raw);
    let (m2, first) = processing_outcome(m, raw, s, times[0]);
    let rest = times.drop_first();
    assert(m2 == claim_step(m, k, s.ttl_seconds, times[0]).0);
    assert(m2.contains_key(k) && m2[k].expires_at == times[0] + s.ttl_seconds);
    lemma_conflicts_while_pending(m2, raw, s, rest);
    let outs = attempt_outcomes(m, raw, s, times);
    assert(outs == seq![first] + attempt_outcomes(m2, raw, s, rest));
    assert forall|i: int| 1 <= i < times.len() implies #[trigger] outs[i] == Err::<
        Option<ResponseView>,
        IdempotencyError,
    >(IdempotencyError::ExpectedResponseNotFound) by {
        assert(outs[i] == attempt_outcomes(m2, raw, s, rest)[i - 1]);
    }
}

/// Key rejection: with the cache engine, a key that is blank after trimming,
/// or whose trimmed form has `MAX_KEY_LEN` bytes or more, is refused with the
/// matching reason, and the store is left exactly as it was: no claim and no
/// read is made.
pub proof fn lemma_malformed_key_touches_nothing(
    m: StoreView,
    raw: Seq<char>,
    s: IdempotencySettings,
    now: u64,
)
    requires
        s.engine == IdempotencyEngine::Redis,
        trimmed(raw).len() == 0 || utf8_len(trimmed(raw)) >= MAX_KEY_LEN,
    ensures
        processing_outcome(m, raw, s, now).0 == m,
        trimmed(raw).len() == 0 ==> processing_outcome(m, raw, s, now).1 == Err::<
            Option<ResponseView>,
            IdempotencyError,
        >(IdempotencyError::KeyValidation(KeyError::Empty)),
        trimmed(raw).len() > 0 ==> processing_outcome(m, raw, s, now).1 == Err::<
            Option<ResponseView>,
            IdempotencyError,
        >(IdempotencyError::KeyValidation(KeyError::TooLong(utf8_len(trimmed(raw)) as usize))),
{
}

/// With idempotency disabled, every attempt, whatever its key and however
/// often that key was used before, processes, and no attempt or save touches
/// the store.
pub proof fn lemma_disabled_processes_every_attempt(
    m: StoreView,
    raw: Seq<char>,
    s: IdempotencySettings,
    x: ResponseView,
    times: Seq<u64>,
)
    requires
        s.engine == IdempotencyEngine::Disabled,
    ensures
        attempt_outcomes(m, raw, s, times).len() == times.len(),
        forall|i: int|
            0 <= i < times.len() ==> #[trigger] attempt_outcomes(m, raw, s, times)[i] == Ok::<
                Option<ResponseView>,
                IdempotencyError,
            >(None),
        forall|t: u64| #[trigger] saved_store(m, raw, s, x, t) == m,
    decreases times.len(),
{
    if times.len() > 0 {
        let rest = times.drop_first();
        lemma_disabled_processes_every_attempt(m, raw, s, x, rest);
        let outs = attempt_outcomes(m, raw, s, times);
        assert(outs == seq![Ok::<Option<ResponseView>, IdempotencyError>(None)]
            + attempt_outcomes(m, raw, s, rest));
        assert forall|i: int| 0 <= i < times.len() implies #[trigger] outs[i] == Ok::<
            Option<ResponseView>,
            IdempotencyError,
        >(None) by {
            if i > 0 {
                assert(outs[i] == attempt_outcomes(m, raw, s, rest)[i - 1]);
            }
        }
    }
}

/// Renewal at the coordinator: once the entry of a key has expired, an
/// attempt with that key processes and leaves a fresh placeholder that lives
/// `ttl_seconds` from `now`, exactly as on a store that never held the key.
pub proof fn lemma_attempt_after_expiry(
    m: StoreView,
    raw: Seq<char>,
    s: IdempotencySettings,
    now: u64,
)
    requires
        s.engine == IdempotencyEngine::Redis,
        key_accepted(raw),
        now + s.ttl_seconds <= u64::MAX,
        m.contains_key(cache_key(s.redis_key_prefix@, raw)) ==> m[cache_key(
            s.redis_key_prefix@,
            raw,
        )].expires_at <= now,
    ensures
        processing_outcome(m, raw, s, now).1 == Ok::<Option<ResponseView>, IdempotencyError>(
            None,
        ),
        processing_outcome(m, raw, s, now).0 == m.insert(
            cache_key(s.redis_key_prefix@, raw),
            Entry { record: RecordView::Pending, expires_at: (now + s.ttl_seconds) as u64 },
        ),
        processing_outcome(m, raw, s, now) == processing_outcome(
            m.remove(cache_key(s.redis_key_prefix@, raw)),
            raw,
            s,
            now,
        ),
{
    let k = cache_key(s.redis_key_prefix@, raw);
    let e = Entry { record: RecordView::Pending, expires_at: (now + s.ttl_seconds) as u64 };
    assert(m.insert(k, e) =~= m.remove(k).insert(k, e));
}

/// The cache key of a validated key under the namespace `prefix`.
pub fn namespaced_key(prefix: &str, key: &IdempotencyKey) -> (r: String)
    ensures
        r@ == prefix@ + seq![':'] + key@,
{
    proof {
        reveal_strlit(":");
    }
    let mut s = prefix.to_owned();
    s.append(":");
    s.append(key.as_str());
    s
}

fn cache_key_of(raw_key: &str, settings: &IdempotencySettings) -> (r: Result<String, IdempotencyError>)
    ensures
        r is Ok <==> key_accepted(raw_key@),
        r matches Ok(k) ==> k@ == cache_key(settings.redis_key_prefix@, raw_key@),
        r matches Err(e) ==> e == IdempotencyError::KeyValidation(key_refusal(raw_key@)),
{
    match IdempotencyKey::parse(raw_key) {
        Ok(k) => Ok(namespaced_key(settings.redis_key_prefix.as_str(), &k)),
        Err(e) => Err(IdempotencyError::KeyValidation(e)),
    }
}

/// The first decision of an attempt: with idempotency off, process; with the
/// cache engine, validate the key and claim its cache key; with the
/// relational engine, refuse.
pub fn begin_processing(raw_key: &str, settings: &IdempotencySettings) -> (r: Result<
    ProcessingStep,
    IdempotencyError,
>)
    ensures
        settings.engine == IdempotencyEngine::Disabled ==> r matches Ok(
            ProcessingStep::StartProcessing,
        ),
        settings.engine == IdempotencyEngine::Postgres ==> r == Err::<
            ProcessingStep,
            IdempotencyError,
        >(IdempotencyError::UnsupportedEngine),
        settings.engine == IdempotencyEngine::Redis && !key_accepted(raw_key@) ==> r == Err::<
            ProcessingStep,
            IdempotencyError,
        >(IdempotencyError::KeyValidation(key_refusal(raw_key@))),
        settings.engine == IdempotencyEngine::Redis && key_accepted(raw_key@) ==> (r matches Ok(
            ProcessingStep::Claim { key, ttl_seconds },
        ) && key@ == cache_key(settings.redis_key_prefix@, raw_key@) && ttl_seconds
            == settings.ttl_seconds),
{
    match settings.engine {
        IdempotencyEngine::Disabled => Ok(ProcessingStep::StartProcessing),
        IdempotencyEngine::Postgres => Err(IdempotencyError::UnsupportedEngine),
        IdempotencyEngine::Redis => {
            let key = cache_key_of(raw_key, settings)?;
            Ok(ProcessingStep::Claim { key, ttl_seconds: settings.ttl_seconds })
        },
    }
}

/// The outcome of an attempt whose claim was lost, from what the cache holds
/// for the key (see `replay_result`).
pub fn on_read(stored: Option<Reservation>) -> (r: Result<IdempotencyData, IdempotencyError>)
    ensures
        r is Ok <==> replay_result(stored_view(stored)) is Ok,
        r matches Ok(d) ==> replay_result(stored_view(stored)) == Ok::<
            ResponseView,
            IdempotencyError,
        >(d@),
        r matches Err(e) ==> replay_result(stored_view(stored)) == Err::<
            ResponseView,
            IdempotencyError,
        >(e),
{
    match stored {
        Some(Reservation::Complete(bytes)) => match IdempotencyData::decode(bytes.as_slice()) {
            Ok(d) => if d.response_status_code == 0 {
                Err(IdempotencyError::ExpectedResponseNotFound)
            } else {
                Ok(d)
            },
            Err(e) => Err(IdempotencyError::from_codec(e)),
        },
        _ => Err(IdempotencyError::ExpectedResponseNotFound),
    }
}

/// What to write once the response is built: nothing with idempotency off;
/// with the cache engine, the encoded response under the key's cache key.
pub fn plan_save(raw_key: &str, settings: &IdempotencySettings, response: &IdempotencyData) -> (r:
    Result<SaveStep, IdempotencyError>)
    ensures
        settings.engine == IdempotencyEngine::Disabled ==> r matches Ok(SaveStep::Done),
        settings.engine == IdempotencyEngine::Postgres ==> r == Err::<SaveStep, IdempotencyError>(
            IdempotencyError::UnsupportedEngine,
        ),
        settings.engine == IdempotencyEngine::Redis && !key_accepted(raw_key@) ==> r == Err::<
            SaveStep,
            IdempotencyError,
        >(IdempotencyError::KeyValidation(key_refusal(raw_key@))),
        settings.engine == IdempotencyEngine::Redis && key_accepted(raw_key@) && representable(
            response@,
        ) ==> (r matches Ok(SaveStep::Overwrite { key, payload, ttl_seconds }) && key@
            == cache_key(settings.redis_key_prefix@, raw_key@) && payload@ == encoded(response@)
            && decoded(payload@) == Some(response@) && ttl_seconds == settings.ttl_seconds),
        settings.engine == IdempotencyEngine::Redis && key_accepted(raw_key@) && !representable(
            response@,
        ) ==> r == Err::<SaveStep, IdempotencyError>(IdempotencyError::Encoding),
{
    match settings.engine {
        IdempotencyEngine::Disabled => Ok(SaveStep::Done),
        IdempotencyEngine::Postgres => Err(IdempotencyError::UnsupportedEngine),
        IdempotencyEngine::Redis => {
            let key = cache_key_of(raw_key, settings)?;
            match response.encode() {
                Ok(payload) => Ok(SaveStep::Overwrite { key, payload, ttl_seconds: settings.ttl_seconds }),
                Err(e) => Err(IdempotencyError::from_codec(e)),
            }
        },
    }
}

/// Starts an attempt against `store` at time `now`: claims the key, or
/// replays what an earlier attempt saved (see `processing_outcome`).
pub fn try_processing(
    store: &mut ReservationStore,
    raw_key: &str,
    settings: &IdempotencySettings,
    now: u64,
) -> (r: Result<RedisPersistenceNextAction, IdempotencyError>)
    requires
        old(store).wf(),
        settings.engine == IdempotencyEngine::Redis ==> now + settings.ttl_seconds <= u64::MAX,
    ensures
        final(store).wf(),
        final(store)@ == processing_outcome(old(store)@, raw_key@, *settings, now).0,
        action_view(r) == processing_outcome(old(store)@, raw_key@, *settings, now).1,
{
    match begin_processing(raw_key, settings)? {
        ProcessingStep::StartProcessing => Ok(RedisPersistenceNextAction::StartProcessing),
        ProcessingStep::Claim { key, ttl_seconds } => {
            match store.try_claim(key.as_str(), ttl_seconds, now) {
                ClaimOutcome::Claimed => Ok(RedisPersistenceNextAction::StartProcessing),
                ClaimOutcome::AlreadyClaimed => {
                    let stored = store.read(key.as_str(), now);
                    let d = on_read(stored)?;
                    Ok(RedisPersistenceNextAction::ReturnSavedData(d))
                },
            }
        },
    }
}

/// Saves `response` for replay at time `now` and hands it back unchanged.
pub fn save_response(
    store: &mut ReservationStore,
    raw_key: &str,
    settings: &IdempotencySettings,
    response: IdempotencyData,
    now: u64,
) -> (r: Result<IdempotencyData, IdempotencyError>)
    requires
        old(store).wf(),
        settings.engine == IdempotencyEngine::Redis ==> now + settings.ttl_seconds <= u64::MAX,
    ensures
        final(store).wf(),
        r matches Ok(d) ==> d@ == response@,
        settings.engine == IdempotencyEngine::Disabled ==> r is Ok && final(store)@ == old(
            store,
        )@,
        settings.engine == IdempotencyEngine::Postgres ==> r == Err::<
            IdempotencyData,
            IdempotencyError,
        >(IdempotencyError::UnsupportedEngine) && final(store)@ == old(store)@,
        settings.engine == IdempotencyEngine::Redis && !key_accepted(raw_key@) ==> r == Err::<
            IdempotencyData,
            IdempotencyError,
        >(IdempotencyError::KeyValidation(key_refusal(raw_key@))) && final(store)@ == old(
            store,
        )@,
        settings.engine == IdempotencyEngine::Redis && key_accepted(raw_key@) && representable(
            response@,
        ) ==> r is Ok && final(store)@ == saved_store(old(store)@, raw_key@, *settings, response@, now)
            && decoded(encoded(response@)) == Some(response@),
        settings.engine == IdempotencyEngine::Redis && key_accepted(raw_key@) && !representable(
            response@,
        ) ==> r == Err::<IdempotencyData, IdempotencyError>(IdempotencyError::Encoding)
            && final(store)@ == old(store)@,
{
    match plan_save(raw_key, settings, &response)? {
        SaveStep::Done => Ok(response),
        SaveStep::Overwrite { key, payload, ttl_seconds } => {
            store.overwrite_with_ttl(key.as_str(), payload, ttl_seconds, now);
            Ok(response)
        },
    }
}

} // verus!
