//! What every run of a cached command keeps, whatever its caller reports.
use vstd::prelude::*;
use crate::cache::{
    CacheEntry, CacheFlow, CacheMeta, CachedCommand, FlowAction, FlowEvent, FlowResult, Phase,
    run, start, transition,
};

verus! {

/// Some action of `actions` has the property `p`.
pub open spec fn emits(actions: Seq<FlowAction>, p: spec_fn(FlowAction) -> bool) -> bool {
    exists|i: int| 0 <= i < actions.len() && #[trigger] p(actions[i])
}

/// A call of the service.
pub open spec fn fetch_action() -> spec_fn(FlowAction) -> bool {
    |a: FlowAction| a is Fetch
}

/// An answer taken from the cache.
pub open spec fn cached_answer() -> spec_fn(FlowAction) -> bool {
    |a: FlowAction| a matches FlowAction::Finish(FlowResult::Cached { .. })
}

/// The answer of a failed service call.
pub open spec fn failed_answer() -> spec_fn(FlowAction) -> bool {
    |a: FlowAction| a matches FlowAction::Finish(FlowResult::Failed)
}

/// A change to the cache: writing a file or saving the metadata.
pub open spec fn cache_store() -> spec_fn(FlowAction) -> bool {
    |a: FlowAction| a is WriteCache || a is SaveMeta
}

/// A look at the cache: its metadata, a file, a stamp's freshness, or an
/// answer taken from it.
pub open spec fn cache_lookup() -> spec_fn(FlowAction) -> bool {
    |a: FlowAction|
        a is LoadMeta || a is ReadCache || a is CheckFresh || a matches FlowAction::Finish(
            FlowResult::Cached { .. },
        )
}

proof fn lemma_emits_cons(a: FlowAction, rest: Seq<FlowAction>, p: spec_fn(FlowAction) -> bool)
    ensures
        emits(seq![a] + rest, p) <==> p(a) || emits(rest, p),
{
    let s = seq![a] + rest;
    if emits(s, p) {
        let i = choose|i: int| 0 <= i < s.len() && #[trigger] p(s[i]);
        if i > 0 {
            assert(s[i] == rest[i - 1]);
        }
    }
    if emits(rest, p) {
        let j = choose|j: int| 0 <= j < rest.len() && #[trigger] p(rest[j]);
        assert(s[j + 1] == rest[j]);
    }
    if p(a) {
        assert(s[0] == a);
    }
}

proof fn lemma_run_step(flow: CacheFlow, events: Seq<FlowEvent>)
    requires
        events.len() > 0,
    ensures
        run(flow, events).1 == seq![transition(flow, events[0]).1] + run(
            transition(flow, events[0]).0,
            events.drop_first(),
        ).1,
{
}

spec fn before_fetch(phase: Phase) -> bool {
    ||| phase is Start
    ||| phase is AwaitMeta
    ||| phase is AwaitFreshness
    ||| phase is AwaitCache
}

spec fn after_fetch(phase: Phase) -> bool {
    ||| phase is AwaitFetch
    ||| phase is AwaitEncode
    ||| phase is AwaitWrite
    ||| phase is AwaitReload
    ||| phase is AwaitSave
    ||| phase matches Phase::Done(FlowResult::Fetched)
    ||| phase matches Phase::Done(FlowResult::Failed)
}

proof fn lemma_fetch_excludes_cache(flow: CacheFlow, events: Seq<FlowEvent>)
    ensures
        after_fetch(flow.phase) ==> !emits(run(flow, events).1, cached_answer()),
        flow.phase matches Phase::Done(FlowResult::Cached { .. }) ==> !emits(
            run(flow, events).1,
            fetch_action(),
        ),
        before_fetch(flow.phase) ==> !(emits(run(flow, events).1, cached_answer()) && emits(
            run(flow, events).1,
            fetch_action(),
        )),
    decreases events.len(),
{
    if events.len() > 0 {
        let (next, a) = transition(flow, events[0]);
        let rest = run(next, events.drop_first()).1;
        lemma_fetch_excludes_cache(next, events.drop_first());
        lemma_run_step(flow, events);
        lemma_emits_cons(a, rest, cached_answer());
        lemma_emits_cons(a, rest, fetch_action());
    }
}

/// A command answered from the cache never calls the service, and a
/// command that called the service never answers from the cache.
pub proof fn law_cached_answer_never_fetches(command: CachedCommand, events: Seq<FlowEvent>)
    ensures
        !(emits(run(start(command), events).1, cached_answer()) && emits(
            run(start(command), events).1,
            fetch_action(),
        )),
{
    lemma_fetch_excludes_cache(start(command), events);
}

spec fn before_result(phase: Phase) -> bool {
    ||| before_fetch(phase)
    ||| phase is AwaitFetch
}

spec fn after_success(phase: Phase) -> bool {
    ||| phase is AwaitEncode
    ||| phase is AwaitWrite
    ||| phase is AwaitReload
    ||| phase is AwaitSave
    ||| phase matches Phase::Done(FlowResult::Fetched)
    ||| phase matches Phase::Done(FlowResult::Cached { .. })
}

proof fn lemma_failure_excludes_store(flow: CacheFlow, events: Seq<FlowEvent>)
    ensures
        after_success(flow.phase) ==> !emits(run(flow, events).1, failed_answer()),
        flow.phase matches Phase::Done(FlowResult::Failed) ==> !emits(
            run(flow, events).1,
            cache_store(),
        ),
        before_result(flow.phase) ==> !(emits(run(flow, events).1, failed_answer()) && emits(
            run(flow, events).1,
            cache_store(),
        )),
    decreases events.len(),
{
    if events.len() > 0 {
        let (next, a) = transition(flow, events[0]);
        let rest = run(next, events.drop_first()).1;
        lemma_failure_excludes_store(next, events.drop_first());
        lemma_run_step(flow, events);
        lemma_emits_cons(a, rest, failed_answer());
        lemma_emits_cons(a, rest, cache_store());
    }
}

/// When the service call fails, the cache is left as it was: no file is
/// written and no stamp is saved.
pub proof fn law_failed_fetch_leaves_cache(command: CachedCommand, events: Seq<FlowEvent>)
    ensures
        emits(run(start(command), events).1, failed_answer()) ==> !emits(
            run(start(command), events).1,
            cache_store(),
        ),
{
    lemma_failure_excludes_store(start(command), events);
}

spec fn refresh_path(flow: CacheFlow) -> bool {
    &&& flow.command == CachedCommand::RefreshHomePage
    &&& (flow.phase is Start || after_fetch(flow.phase) || after_success(flow.phase)
        || flow.phase is Done)
}

proof fn lemma_refresh_ignores_cache(flow: CacheFlow, events: Seq<FlowEvent>)
    requires
        refresh_path(flow),
    ensures
        !emits(run(flow, events).1, cache_lookup()),
    decreases events.len(),
{
    if events.len() > 0 {
        let (next, a) = transition(flow, events[0]);
        let rest = run(next, events.drop_first()).1;
        lemma_refresh_ignores_cache(next, events.drop_first());
        lemma_run_step(flow, events);
        lemma_emits_cons(a, rest, cache_lookup());
    }
}

/// Refreshing the home page never looks at the cache: it neither reads the
/// metadata nor the file, asks for no freshness, and never answers from it.
pub proof fn law_refresh_ignores_cache(events: Seq<FlowEvent>)
    ensures
        !emits(run(start(CachedCommand::RefreshHomePage), events).1, cache_lookup()),
{
    lemma_refresh_ignores_cache(start(CachedCommand::RefreshHomePage), events);
}

proof fn lemma_done_is_final(flow: CacheFlow, events: Seq<FlowEvent>)
    requires
        flow.phase is Done,
    ensures
        forall|j: int|
            0 <= j < run(flow, events).1.len() ==> (#[trigger] run(flow, events).1[j]) is Idle,
        run(flow, events).1.len() == events.len(),
    decreases events.len(),
{
    if events.len() > 0 {
        lemma_done_is_final(transition(flow, events[0]).0, events.drop_first());
        lemma_run_step(flow, events);
    }
}

proof fn lemma_finish_is_last(flow: CacheFlow, events: Seq<FlowEvent>)
    ensures
        run(flow, events).1.len() == events.len(),
        forall|i: int, j: int|
            0 <= i < j < run(flow, events).1.len() && (#[trigger] run(flow, events).1[i]) is Finish
                ==> (#[trigger] run(flow, events).1[j]) is Idle,
    decreases events.len(),
{
    if events.len() > 0 {
        let (next, a) = transition(flow, events[0]);
        let rest_events = events.drop_first();
        let acts = run(flow, events).1;
        let rest = run(next, rest_events).1;
        lemma_finish_is_last(next, rest_events);
        lemma_run_step(flow, events);
        if a is Finish {
            lemma_done_is_final(next, rest_events);
        }
        assert forall|i: int, j: int|
            0 <= i < j < acts.len() && (#[trigger] acts[i]) is Finish implies (#[trigger] acts[j]) is Idle by {
            assert(acts[j] == rest[j - 1]);
            if i > 0 {
                assert(acts[i] == rest[i - 1]);
            }
        }
    }
}

/// A command answers once: after the action that ends it, every further
/// event is ignored.
pub proof fn law_answers_once(command: CachedCommand, events: Seq<FlowEvent>, i: int, j: int)
    requires
        0 <= i < j < events.len(),
        run(start(command), events).1[i] is Finish,
    ensures
        run(start(command), events).1[j] is Idle,
{
    lemma_finish_is_last(start(command), events);
}

proof fn lemma_write_before_save(flow: CacheFlow, events: Seq<FlowEvent>)
    requires
        !(flow.phase is AwaitWrite || flow.phase is AwaitReload || flow.phase is AwaitSave),
    ensures
        forall|j: int|
            0 <= j < run(flow, events).1.len() && (#[trigger] run(flow, events).1[j]) is SaveMeta
                ==> exists|i: int| 0 <= i < j && (#[trigger] run(flow, events).1[i]) is WriteCache,
    decreases events.len(),
{
    if events.len() > 0 {
        let (next, a) = transition(flow, events[0]);
        let rest_events = events.drop_first();
        let acts = run(flow, events).1;
        let rest = run(next, rest_events).1;
        lemma_run_step(flow, events);
        if a is WriteCache {
            assert forall|j: int|
                0 <= j < acts.len() && (#[trigger] acts[j]) is SaveMeta implies exists|i: int|
                0 <= i < j && (#[trigger] acts[i]) is WriteCache by {
                assert(acts[0] is WriteCache);
            }
        } else {
            lemma_write_before_save(next, rest_events);
            assert forall|j: int|
                0 <= j < acts.len() && (#[trigger] acts[j]) is SaveMeta implies exists|i: int|
                0 <= i < j && (#[trigger] acts[i]) is WriteCache by {
                assert(j > 0);
                assert(acts[j] == rest[j - 1]);
                let i = choose|i: int| 0 <= i < j - 1 && (#[trigger] rest[i]) is WriteCache;
                assert(acts[i + 1] == rest[i]);
            }
        }
    }
}

/// A stamp is saved only after the command wrote its cache file.
pub proof fn law_cache_written_before_stamp(command: CachedCommand, events: Seq<FlowEvent>, j: int)
    requires
        0 <= j < run(start(command), events).1.len(),
        run(start(command), events).1[j] is SaveMeta,
    ensures
        exists|i: int| 0 <= i < j && (#[trigger] run(start(command), events).1[i]) is WriteCache,
{
    lemma_write_before_save(start(command), events);
}

/// The favourite artists are read from the cache only right after the
/// caller said that their stamp is fresh, and are never answered as stale.
pub proof fn law_artists_cache_only_when_fresh(flow: CacheFlow, event: FlowEvent)
    requires
        flow.command == CachedCommand::FavoriteArtists,
    ensures
        transition(flow, event).1 is ReadCache ==> event == FlowEvent::Freshness(true),
        !(transition(flow, event).1 matches FlowAction::Finish(
            FlowResult::Cached { is_stale: true },
        )),
{
}

/// The home page taken from the cache is stale exactly when the caller said
/// that its stamp is no longer fresh.
pub proof fn law_home_page_staleness(flow: CacheFlow, event: FlowEvent, is_stale: bool)
    requires
        flow.command == CachedCommand::HomePage,
        transition(flow, event).1 == FlowAction::Finish(FlowResult::Cached { is_stale }),
    ensures
        event == FlowEvent::Freshness(!is_stale),
{
}

/// The metadata that a command saves is the one it read last, with the
/// command's stamp set to the time read with it and the other stamps kept.
pub proof fn law_saved_meta_is_stamped(
    flow: CacheFlow,
    event: FlowEvent,
    saved: CacheMeta,
    other: CacheEntry,
)
    requires
        transition(flow, event).1 == FlowAction::SaveMeta(saved),
        other != flow.command.entry_of(),
    ensures
        event matches FlowEvent::MetaReloaded { meta, now } && saved.stamp_of(
            flow.command.entry_of(),
        ) == now && saved.stamp_of(other) == meta.stamp_of(other),
{
}

/// A home page whose stamp was ever written and whose file decodes is
/// answered from the cache, stale exactly when the stamp is no longer fresh,
/// without calling the service.
pub proof fn law_home_page_cache_hit(meta: CacheMeta, fresh: bool)
    requires
        meta.home_page_ts > 0,
    ensures
        run(
            start(CachedCommand::HomePage),
            seq![
                FlowEvent::Begin,
                FlowEvent::MetaLoaded(meta),
                FlowEvent::CacheRead(true),
                FlowEvent::Freshness(fresh),
            ],
        ).1 == seq![
            FlowAction::LoadMeta,
            FlowAction::ReadCache(CacheEntry::HomePage),
            FlowAction::CheckFresh(meta.home_page_ts),
            FlowAction::Finish(FlowResult::Cached { is_stale: !fresh }),
        ],
{
    let events = seq![
        FlowEvent::Begin,
        FlowEvent::MetaLoaded(meta),
        FlowEvent::CacheRead(true),
        FlowEvent::Freshness(fresh),
    ];
    reveal_with_fuel(run, 5);
    assert(events.drop_first().drop_first().drop_first().drop_first() =~= Seq::<FlowEvent>::empty());
    assert(run(start(CachedCommand::HomePage), events).1 =~= seq![
        FlowAction::LoadMeta,
        FlowAction::ReadCache(CacheEntry::HomePage),
        FlowAction::CheckFresh(meta.home_page_ts),
        FlowAction::Finish(FlowResult::Cached { is_stale: !fresh }),
    ]);
}

/// Favourite artists whose stamp is fresh and whose file decodes are
/// answered from the cache, as fresh, without calling the service.
pub proof fn law_artists_cache_hit(meta: CacheMeta)
    ensures
        run(
            start(CachedCommand::FavoriteArtists),
            seq![
                FlowEvent::Begin,
                FlowEvent::MetaLoaded(meta),
                FlowEvent::Freshness(true),
                FlowEvent::CacheRead(true),
            ],
        ).1 == seq![
            FlowAction::LoadMeta,
            FlowAction::CheckFresh(meta.favorite_artists_ts),
            FlowAction::ReadCache(CacheEntry::FavoriteArtists),
            FlowAction::Finish(FlowResult::Cached { is_stale: false }),
        ],
{
    let events = seq![
        FlowEvent::Begin,
        FlowEvent::MetaLoaded(meta),
        FlowEvent::Freshness(true),
        FlowEvent::CacheRead(true),
    ];
    reveal_with_fuel(run, 5);
    assert(events.drop_first().drop_first().drop_first().drop_first() =~= Seq::<FlowEvent>::empty());
    assert(run(start(CachedCommand::FavoriteArtists), events).1 =~= seq![
        FlowAction::LoadMeta,
        FlowAction::CheckFresh(meta.favorite_artists_ts),
        FlowAction::ReadCache(CacheEntry::FavoriteArtists),
        FlowAction::Finish(FlowResult::Cached { is_stale: false }),
    ]);
}

/// Once the service answered and its answer was encoded, the command writes
/// its cache file, then saves the metadata read last with its stamp set to
/// the time read with it, and answers with what was fetched.
pub proof fn law_fetched_answer_is_cached(
    command: CachedCommand,
    reloaded: CacheMeta,
    now: u64,
)
    ensures
        run(
            CacheFlow { command, phase: Phase::AwaitFetch },
            seq![
                FlowEvent::Fetched(true),
                FlowEvent::Encoded(true),
                FlowEvent::Written,
                FlowEvent::MetaReloaded { meta: reloaded, now },
                FlowEvent::Saved,
            ],
        ).1 == seq![
            FlowAction::Encode,
            FlowAction::WriteCache(command.entry_of()),
            FlowAction::ReloadMeta,
            FlowAction::SaveMeta(reloaded.with_stamp(command.entry_of(), now)),
            FlowAction::Finish(FlowResult::Fetched),
        ],
{
    let events = seq![
        FlowEvent::Fetched(true),
        FlowEvent::Encoded(true),
        FlowEvent::Written,
        FlowEvent::MetaReloaded { meta: reloaded, now },
        FlowEvent::Saved,
    ];
    reveal_with_fuel(run, 6);
    assert(events.drop_first().drop_first().drop_first().drop_first().drop_first()
        =~= Seq::<FlowEvent>::empty());
    assert(run(CacheFlow { command, phase: Phase::AwaitFetch }, events).1 =~= seq![
        FlowAction::Encode,
        FlowAction::WriteCache(command.entry_of()),
        FlowAction::ReloadMeta,
        FlowAction::SaveMeta(reloaded.with_stamp(command.entry_of(), now)),
        FlowAction::Finish(FlowResult::Fetched),
    ]);
}

/// Setting a stamp and reading it back gives the time that was set, and
/// leaves the other stamps as they were.
pub proof fn law_stamp_read_back(meta: CacheMeta, entry: CacheEntry, other: CacheEntry, now: u64)
    ensures
        meta.with_stamp(entry, now).stamp_of(entry) == now,
        other != entry ==> meta.with_stamp(entry, now).stamp_of(other) == meta.stamp_of(other),
{
}

} // verus!

verus! {

/// Invoking a command: a refresh calls the service at once; the other
/// commands first read the cache metadata.
pub proof fn law_begin(command: CachedCommand)
    ensures
        command == CachedCommand::RefreshHomePage ==> transition(start(command), FlowEvent::Begin)
            == (CacheFlow { command, phase: Phase::AwaitFetch }, FlowAction::Fetch),
        command != CachedCommand::RefreshHomePage ==> transition(start(command), FlowEvent::Begin)
            == (CacheFlow { command, phase: Phase::AwaitMeta }, FlowAction::LoadMeta),
{
}

/// With the metadata read, the home page reads its cache file when a stamp
/// was ever written and calls the service otherwise; the favourite artists
/// ask whether their stamp is fresh.
pub proof fn law_meta_loaded(meta: CacheMeta)
    ensures
        meta.home_page_ts > 0 ==> transition(
            CacheFlow { command: CachedCommand::HomePage, phase: Phase::AwaitMeta },
            FlowEvent::MetaLoaded(meta),
        ) == (
            CacheFlow {
                command: CachedCommand::HomePage,
                phase: Phase::AwaitCache { ts: meta.home_page_ts },
            },
            FlowAction::ReadCache(CacheEntry::HomePage),
        ),
        meta.home_page_ts == 0 ==> transition(
            CacheFlow { command: CachedCommand::HomePage, phase: Phase::AwaitMeta },
            FlowEvent::MetaLoaded(meta),
        ) == (
            CacheFlow { command: CachedCommand::HomePage, phase: Phase::AwaitFetch },
            FlowAction::Fetch,
        ),
        transition(
            CacheFlow { command: CachedCommand::FavoriteArtists, phase: Phase::AwaitMeta },
            FlowEvent::MetaLoaded(meta),
        ) == (
            CacheFlow {
                command: CachedCommand::FavoriteArtists,
                phase: Phase::AwaitFreshness { ts: meta.favorite_artists_ts },
            },
            FlowAction::CheckFresh(meta.favorite_artists_ts),
        ),
{
}

/// A cache file that is missing or does not decode sends every command to
/// the service.
pub proof fn law_cache_miss_fetches(command: CachedCommand, ts: u64)
    ensures
        transition(CacheFlow { command, phase: Phase::AwaitCache { ts } }, FlowEvent::CacheRead(false))
            == (CacheFlow { command, phase: Phase::AwaitFetch }, FlowAction::Fetch),
{
}

/// A cache file that decodes: the home page then asks whether its stamp is
/// fresh; the favourite artists, whose stamp was fresh, are answered from it.
pub proof fn law_cache_hit(ts: u64)
    ensures
        transition(
            CacheFlow { command: CachedCommand::HomePage, phase: Phase::AwaitCache { ts } },
            FlowEvent::CacheRead(true),
        ) == (
            CacheFlow { command: CachedCommand::HomePage, phase: Phase::AwaitFreshness { ts } },
            FlowAction::CheckFresh(ts),
        ),
        transition(
            CacheFlow { command: CachedCommand::FavoriteArtists, phase: Phase::AwaitCache { ts } },
            FlowEvent::CacheRead(true),
        ) == (
            CacheFlow {
                command: CachedCommand::FavoriteArtists,
                phase: Phase::Done(FlowResult::Cached { is_stale: false }),
            },
            FlowAction::Finish(FlowResult::Cached { is_stale: false }),
        ),
{
}

/// The freshness of a stamp: the cached home page is answered, stale when
/// the stamp is not fresh; the favourite artists read their file when fresh
/// and call the service otherwise.
pub proof fn law_freshness(ts: u64, fresh: bool)
    ensures
        transition(
            CacheFlow { command: CachedCommand::HomePage, phase: Phase::AwaitFreshness { ts } },
            FlowEvent::Freshness(fresh),
        ) == (
            CacheFlow {
                command: CachedCommand::HomePage,
                phase: Phase::Done(FlowResult::Cached { is_stale: !fresh }),
            },
            FlowAction::Finish(FlowResult::Cached { is_stale: !fresh }),
        ),
        fresh ==> transition(
            CacheFlow { command: CachedCommand::FavoriteArtists, phase: Phase::AwaitFreshness { ts } },
            FlowEvent::Freshness(fresh),
        ) == (
            CacheFlow { command: CachedCommand::FavoriteArtists, phase: Phase::AwaitCache { ts } },
            FlowAction::ReadCache(CacheEntry::FavoriteArtists),
        ),
        !fresh ==> transition(
            CacheFlow { command: CachedCommand::FavoriteArtists, phase: Phase::AwaitFreshness { ts } },
            FlowEvent::Freshness(fresh),
        ) == (
            CacheFlow { command: CachedCommand::FavoriteArtists, phase: Phase::AwaitFetch },
            FlowAction::Fetch,
        ),
{
}

/// The service's answer, for every command: a failed call ends the command
/// with the service's error; a successful one is encoded for the cache.
pub proof fn law_fetch_outcome(command: CachedCommand, ok: bool)
    ensures
        ok ==> transition(CacheFlow { command, phase: Phase::AwaitFetch }, FlowEvent::Fetched(ok))
            == (CacheFlow { command, phase: Phase::AwaitEncode }, FlowAction::Encode),
        !ok ==> transition(CacheFlow { command, phase: Phase::AwaitFetch }, FlowEvent::Fetched(ok))
            == (
            CacheFlow { command, phase: Phase::Done(FlowResult::Failed) },
            FlowAction::Finish(FlowResult::Failed),
        ),
{
}

/// Encoding the fetched value, for every command: when it encodes, the
/// command's file is written; when it does not, the value is answered
/// without touching the cache.
pub proof fn law_encode_outcome(command: CachedCommand, ok: bool)
    ensures
        ok ==> transition(CacheFlow { command, phase: Phase::AwaitEncode }, FlowEvent::Encoded(ok))
            == (
            CacheFlow { command, phase: Phase::AwaitWrite },
            FlowAction::WriteCache(command.entry_of()),
        ),
        !ok ==> transition(CacheFlow { command, phase: Phase::AwaitEncode }, FlowEvent::Encoded(ok))
            == (
            CacheFlow { command, phase: Phase::Done(FlowResult::Fetched) },
            FlowAction::Finish(FlowResult::Fetched),
        ),
{
}

/// After the file is written, for every command: the metadata is read
/// again, saved with the command's stamp set to the time read with it, and
/// the fetched value is answered.
pub proof fn law_stamp_and_answer(command: CachedCommand, meta: CacheMeta, now: u64)
    ensures
        transition(CacheFlow { command, phase: Phase::AwaitWrite }, FlowEvent::Written) == (
            CacheFlow { command, phase: Phase::AwaitReload },
            FlowAction::ReloadMeta,
        ),
        transition(
            CacheFlow { command, phase: Phase::AwaitReload },
            FlowEvent::MetaReloaded { meta, now },
        ) == (
            CacheFlow { command, phase: Phase::AwaitSave },
            FlowAction::SaveMeta(meta.with_stamp(command.entry_of(), now)),
        ),
        transition(CacheFlow { command, phase: Phase::AwaitSave }, FlowEvent::Saved) == (
            CacheFlow { command, phase: Phase::Done(FlowResult::Fetched) },
            FlowAction::Finish(FlowResult::Fetched),
        ),
{
}

/// A command that is over ignores every event.
pub proof fn law_done_ignores(command: CachedCommand, result: FlowResult, event: FlowEvent)
    ensures
        transition(CacheFlow { command, phase: Phase::Done(result) }, event) == (
            CacheFlow { command, phase: Phase::Done(result) },
            FlowAction::Idle,
        ),
{
}

/// A command ends as failed only on the report of a failed service call.
pub proof fn law_failure_only_from_service(flow: CacheFlow, event: FlowEvent)
    requires
        transition(flow, event).1 == FlowAction::Finish(FlowResult::Failed),
    ensures
        flow.phase is AwaitFetch,
        event == FlowEvent::Fetched(false),
{
}

/// The service is called only at the start of a refresh, for a home page
/// never cached, on a cache file that is missing or does not decode, or for
/// favourite artists whose stamp is not fresh.
pub proof fn law_fetch_only_without_cache(flow: CacheFlow, event: FlowEvent)
    requires
        transition(flow, event).1 is Fetch,
    ensures
        ({
            ||| flow.command == CachedCommand::RefreshHomePage && event == FlowEvent::Begin
            ||| flow.command != CachedCommand::FavoriteArtists && (event matches FlowEvent::MetaLoaded(
                m,
            ) && m.home_page_ts == 0)
            ||| event == FlowEvent::CacheRead(false)
            ||| flow.command == CachedCommand::FavoriteArtists && event == FlowEvent::Freshness(false)
        }),
{
}

proof fn lemma_fetched_answer_after_success(flow: CacheFlow, events: Seq<FlowEvent>)
    requires
        !(flow.phase is AwaitEncode || flow.phase is AwaitWrite || flow.phase is AwaitReload
            || flow.phase is AwaitSave || flow.phase matches Phase::Done(FlowResult::Fetched)),
    ensures
        run(flow, events).1.len() == events.len(),
        forall|j: int|
            0 <= j < run(flow, events).1.len() && #[trigger] run(flow, events).1[j]
                == FlowAction::Finish(FlowResult::Fetched) ==> exists|i: int|
                0 <= i < j && #[trigger] events[i] == FlowEvent::Fetched(true),
    decreases events.len(),
{
    if events.len() > 0 {
        let (next, a) = transition(flow, events[0]);
        let rest_events = events.drop_first();
        let acts = run(flow, events).1;
        let rest = run(next, rest_events).1;
        lemma_run_step(flow, events);
        lemma_finish_is_last(next, rest_events);
        if a is Encode {
            assert forall|j: int|
                0 <= j < acts.len() && #[trigger] acts[j] == FlowAction::Finish(FlowResult::Fetched)
                implies exists|i: int| 0 <= i < j && #[trigger] events[i] == FlowEvent::Fetched(true) by {
                assert(j > 0);
                assert(events[0] == FlowEvent::Fetched(true));
            }
        } else {
            lemma_fetched_answer_after_success(next, rest_events);
            assert forall|j: int|
                0 <= j < acts.len() && #[trigger] acts[j] == FlowAction::Finish(FlowResult::Fetched)
                implies exists|i: int| 0 <= i < j && #[trigger] events[i] == FlowEvent::Fetched(true) by {
                assert(j > 0);
                assert(acts[j] == rest[j - 1]);
                let i = choose|i: int|
                    0 <= i < j - 1 && #[trigger] rest_events[i] == FlowEvent::Fetched(true);
                assert(events[i + 1] == rest_events[i]);
            }
        }
    }
}

/// A command answers with a fetched value only after the service reported
/// success.
pub proof fn law_fetched_answer_needs_success(
    command: CachedCommand,
    events: Seq<FlowEvent>,
    j: int,
)
    requires
        0 <= j < events.len(),
        run(start(command), events).1[j] == FlowAction::Finish(FlowResult::Fetched),
    ensures
        exists|i: int| 0 <= i < j && #[trigger] events[i] == FlowEvent::Fetched(true),
{
    lemma_fetched_answer_after_success(start(command), events);
}

} // verus!

verus! {

/// The event that answers the action a command in `phase` is waiting on.
pub open spec fn awaited(phase: Phase, event: FlowEvent) -> bool {
    match phase {
        Phase::Start => event is Begin,
        Phase::AwaitMeta => event is MetaLoaded,
        Phase::AwaitFreshness { .. } => event is Freshness,
        Phase::AwaitCache { .. } => event is CacheRead,
        Phase::AwaitFetch => event is Fetched,
        Phase::AwaitEncode => event is Encoded,
        Phase::AwaitWrite => event is Written,
        Phase::AwaitReload => event is MetaReloaded,
        Phase::AwaitSave => event is Saved,
        Phase::Done(_) => false,
    }
}

/// An event that does not answer what the command waits on changes nothing
/// and asks for nothing.
pub proof fn law_unawaited_event_ignored(flow: CacheFlow, event: FlowEvent)
    requires
        !awaited(flow.phase, event),
    ensures
        transition(flow, event) == (flow, FlowAction::Idle),
{
}

/// Each stamp is read from its own field.
pub proof fn law_stamp_fields(meta: CacheMeta)
    ensures
        meta.stamp_of(CacheEntry::HomePage) == meta.home_page_ts,
        meta.stamp_of(CacheEntry::FavoriteArtists) == meta.favorite_artists_ts,
        CachedCommand::HomePage.entry_of() == CacheEntry::HomePage,
        CachedCommand::RefreshHomePage.entry_of() == CacheEntry::HomePage,
        CachedCommand::FavoriteArtists.entry_of() == CacheEntry::FavoriteArtists,
{
}

} // verus!
