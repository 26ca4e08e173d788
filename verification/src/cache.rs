//! The on-disk cache of the home page and of the favourite artists, and the
//! decisions of the commands that read and refresh it.
//!
//! A command that may be served from the cache is driven as a small state
//! machine: the caller performs each [`FlowAction`] (reading the metadata,
//! reading and decoding the cache file, asking the clock whether a stamp is
//! still fresh, calling the service, encoding and writing the result, saving
//! the metadata) and reports what came of it as a [`FlowEvent`].
use vstd::prelude::*;

verus! {

/// The entries that the command layer keeps on disk.
#[derive(Clone, Copy, Debug, PartialEq, Eq, Structural)]
pub enum CacheEntry {
    HomePage,
    FavoriteArtists,
}

/// When each cache entry was last written, in seconds since the Unix epoch;
/// 0 means never.
#[derive(Clone, Copy, Debug)]
pub struct CacheMeta {
    pub home_page_ts: u64,
    pub favorite_artists_ts: u64,
}

impl CacheMeta {
    /// The stamp kept for `entry`.
    pub open spec fn stamp_of(self, entry: CacheEntry) -> u64 {
        match entry {
            CacheEntry::HomePage => self.home_page_ts,
            CacheEntry::FavoriteArtists => self.favorite_artists_ts,
        }
    }

    /// This metadata with the stamp of `entry` set to `now`.
    pub open spec fn with_stamp(self, entry: CacheEntry, now: u64) -> CacheMeta {
        match entry {
            CacheEntry::HomePage => CacheMeta { home_page_ts: now, ..self },
            CacheEntry::FavoriteArtists => CacheMeta { favorite_artists_ts: now, ..self },
        }
    }

    /// Metadata of a cache that was never written.
    pub fn empty() -> (meta: CacheMeta)
        ensures
            meta.home_page_ts == 0,
            meta.favorite_artists_ts == 0,
    {
        CacheMeta { home_page_ts: 0, favorite_artists_ts: 0 }
    }

    /// The stamp kept for `entry`.
    pub fn timestamp(&self, entry: CacheEntry) -> (ts: u64)
        ensures
            ts == self.stamp_of(entry),
    {
        match entry {
            CacheEntry::HomePage => self.home_page_ts,
            CacheEntry::FavoriteArtists => self.favorite_artists_ts,
        }
    }

    /// This metadata with the stamp of `entry` set to `now`, the other
    /// stamps kept.
    pub fn stamped(&self, entry: CacheEntry, now: u64) -> (meta: CacheMeta)
        ensures
            meta == self.with_stamp(entry, now),
    {
        match entry {
            CacheEntry::HomePage => CacheMeta {
                home_page_ts: now,
                favorite_artists_ts: self.favorite_artists_ts,
            },
            CacheEntry::FavoriteArtists => CacheMeta {
                home_page_ts: self.home_page_ts,
                favorite_artists_ts: now,
            },
        }
    }
}

/// The name of the file that holds `entry`.
pub open spec fn file_name_of(entry: CacheEntry) -> Seq<char> {
    match entry {
        CacheEntry::HomePage => "home_page.json"@,
        CacheEntry::FavoriteArtists => "favorite_artists.json"@,
    }
}

/// The name of the file that holds `entry`.
pub fn cache_file_name(entry: CacheEntry) -> (name: &'static str)
    ensures
        name@ == file_name_of(entry),
{
    match entry {
        CacheEntry::HomePage => "home_page.json",
        CacheEntry::FavoriteArtists => "favorite_artists.json",
    }
}

/// The commands that go through the cache.
#[derive(Clone, Copy, Debug, PartialEq, Eq, Structural)]
pub enum CachedCommand {
    /// Serve the home page from the cache whenever one was ever written, and
    /// say whether it is stale; otherwise fetch it and cache it.
    HomePage,
    /// Fetch the home page and cache it, whatever the cache holds.
    RefreshHomePage,
    /// Serve the favourite artists from the cache while it is fresh;
    /// otherwise fetch them and cache them.
    FavoriteArtists,
}

impl CachedCommand {
    /// The entry that the command reads and writes.
    pub open spec fn entry_of(self) -> CacheEntry {
        match self {
            CachedCommand::FavoriteArtists => CacheEntry::FavoriteArtists,
            _ => CacheEntry::HomePage,
        }
    }

    /// The entry that the command reads and writes.
    pub fn entry(&self) -> (entry: CacheEntry)
        ensures
            entry == self.entry_of(),
    {
        match self {
            CachedCommand::FavoriteArtists => CacheEntry::FavoriteArtists,
            _ => CacheEntry::HomePage,
        }
    }
}

/// How a command ended.
#[derive(Clone, Copy, Debug, PartialEq, Eq, Structural)]
pub enum FlowResult {
    /// Answered from the cache; `is_stale` says that the stamp was no longer fresh.
    Cached { is_stale: bool },
    /// Answered with what the service returned.
    Fetched,
    /// The service call failed; its error is the answer.
    Failed,
}

/// Where a command stands.
#[derive(Clone, Copy, Debug)]
pub enum Phase {
    Start,
    AwaitMeta,
    AwaitFreshness { ts: u64 },
    AwaitCache { ts: u64 },
    AwaitFetch,
    AwaitEncode,
    AwaitWrite,
    AwaitReload,
    AwaitSave,
    Done(FlowResult),
}

/// What the caller reports back.
#[derive(Clone, Copy, Debug)]
pub enum FlowEvent {
    /// The command was invoked.
    Begin,
    /// The cache metadata, as read.
    MetaLoaded(CacheMeta),
    /// Whether the stamp asked about is still fresh.
    Freshness(bool),
    /// Whether the cache file was there and decoded.
    CacheRead(bool),
    /// Whether the service call succeeded.
    Fetched(bool),
    /// Whether the fetched value could be encoded for the cache.
    Encoded(bool),
    /// The cache file was written (or the write failed, which is ignored).
    Written,
    /// The cache metadata read again, and the current time.
    MetaReloaded { meta: CacheMeta, now: u64 },
    /// The metadata was saved (or saving failed, which is ignored).
    Saved,
}

/// What the caller is to do next.
#[derive(Clone, Copy, Debug)]
pub enum FlowAction {
    /// Read the cache metadata; answer with `MetaLoaded`.
    LoadMeta,
    /// Ask whether this stamp is fresh; answer with `Freshness`.
    CheckFresh(u64),
    /// Read and decode this entry's file; answer with `CacheRead`.
    ReadCache(CacheEntry),
    /// Call the service; answer with `Fetched`.
    Fetch,
    /// Encode the fetched value; answer with `Encoded`.
    Encode,
    /// Write the encoded value to this entry's file; answer with `Written`.
    WriteCache(CacheEntry),
    /// Read the metadata again and the clock; answer with `MetaReloaded`.
    ReloadMeta,
    /// Save this metadata; answer with `Saved`.
    SaveMeta(CacheMeta),
    /// The command is over, with this result.
    Finish(FlowResult),
    /// The event did not fit where the command stands; nothing to do.
    Idle,
}

/// A command in progress.
#[derive(Clone, Copy, Debug)]
pub struct CacheFlow {
    pub command: CachedCommand,
    pub phase: Phase,
}

/// A command that has not started.
pub open spec fn start(command: CachedCommand) -> CacheFlow {
    CacheFlow { command, phase: Phase::Start }
}

/// The next state of `flow` on `event`, and the action to perform.
pub open spec fn transition(flow: CacheFlow, event: FlowEvent) -> (CacheFlow, FlowAction) {
    let command = flow.command;
    let entry = command.entry_of();
    let go = |phase: Phase, action: FlowAction| (CacheFlow { command, phase }, action);
    match (flow.phase, event) {
        (Phase::Start, FlowEvent::Begin) => match command {
            CachedCommand::RefreshHomePage => go(Phase::AwaitFetch, FlowAction::Fetch),
            _ => go(Phase::AwaitMeta, FlowAction::LoadMeta),
        },
        (Phase::AwaitMeta, FlowEvent::MetaLoaded(meta)) => match command {
            CachedCommand::FavoriteArtists => go(
                Phase::AwaitFreshness { ts: meta.favorite_artists_ts },
                FlowAction::CheckFresh(meta.favorite_artists_ts),
            ),
            _ => if meta.home_page_ts > 0 {
                go(Phase::AwaitCache { ts: meta.home_page_ts }, FlowAction::ReadCache(entry))
            } else {
                go(Phase::AwaitFetch, FlowAction::Fetch)
            },
        },
        (Phase::AwaitCache { ts }, FlowEvent::CacheRead(hit)) => if !hit {
            go(Phase::AwaitFetch, FlowAction::Fetch)
        } else {
            match command {
                CachedCommand::FavoriteArtists => go(
                    Phase::Done(FlowResult::Cached { is_stale: false }),
                    FlowAction::Finish(FlowResult::Cached { is_stale: false }),
                ),
                _ => go(Phase::AwaitFreshness { ts }, FlowAction::CheckFresh(ts)),
            }
        },
        (Phase::AwaitFreshness { ts }, FlowEvent::Freshness(fresh)) => match command {
            CachedCommand::FavoriteArtists => if fresh {
                go(Phase::AwaitCache { ts }, FlowAction::ReadCache(entry))
            } else {
                go(Phase::AwaitFetch, FlowAction::Fetch)
            },
            _ => go(
                Phase::Done(FlowResult::Cached { is_stale: !fresh }),
                FlowAction::Finish(FlowResult::Cached { is_stale: !fresh }),
            ),
        },
        (Phase::AwaitFetch, FlowEvent::Fetched(ok)) => if ok {
            go(Phase::AwaitEncode, FlowAction::Encode)
        } else {
            go(Phase::Done(FlowResult::Failed), FlowAction::Finish(FlowResult::Failed))
        },
        (Phase::AwaitEncode, FlowEvent::Encoded(ok)) => if ok {
            go(Phase::AwaitWrite, FlowAction::WriteCache(entry))
        } else {
            go(Phase::Done(FlowResult::Fetched), FlowAction::Finish(FlowResult::Fetched))
        },
        (Phase::AwaitWrite, FlowEvent::Written) => go(Phase::AwaitReload, FlowAction::ReloadMeta),
        (Phase::AwaitReload, FlowEvent::MetaReloaded { meta, now }) => go(
            Phase::AwaitSave,
            FlowAction::SaveMeta(meta.with_stamp(entry, now)),
        ),
        (Phase::AwaitSave, FlowEvent::Saved) => go(
            Phase::Done(FlowResult::Fetched),
            FlowAction::Finish(FlowResult::Fetched),
        ),
        _ => (flow, FlowAction::Idle),
    }
}

/// The state reached from `flow` on `events`, and the actions asked for,
/// one per event.
pub open spec fn run(flow: CacheFlow, events: Seq<FlowEvent>) -> (CacheFlow, Seq<FlowAction>)
    decreases events.len(),
{
    if events.len() == 0 {
        (flow, Seq::empty())
    } else {
        let (next, action) = transition(flow, events[0]);
        let (last, actions) = run(next, events.drop_first());
        (last, seq![action] + actions)
    }
}

impl CacheFlow {
    /// A command that has not started.
    pub fn new(command: CachedCommand) -> (flow: CacheFlow)
        ensures
            flow == start(command),
    {
        CacheFlow { command, phase: Phase::Start }
    }

    /// Whether the command is over.
    pub fn is_done(&self) -> (done: bool)
        ensures
            done == (self.phase is Done),
    {
        match self.phase {
            Phase::Done(_) => true,
            _ => false,
        }
    }

    /// Takes `event` into account and says what to do next.
    pub fn step(&mut self, event: FlowEvent) -> (action: FlowAction)
        ensures
            (*final(self), action) == transition(*old(self), event),
    {
        let command = self.command;
        let entry = command.entry();
        let (phase, action) = match (self.phase, event) {
            (Phase::Start, FlowEvent::Begin) => match command {
                CachedCommand::RefreshHomePage => (Phase::AwaitFetch, FlowAction::Fetch),
                _ => (Phase::AwaitMeta, FlowAction::LoadMeta),
            },
            (Phase::AwaitMeta, FlowEvent::MetaLoaded(meta)) => match command {
                CachedCommand::FavoriteArtists => (
                    Phase::AwaitFreshness { ts: meta.favorite_artists_ts },
                    FlowAction::CheckFresh(meta.favorite_artists_ts),
                ),
                _ => if meta.home_page_ts > 0 {
                    (Phase::AwaitCache { ts: meta.home_page_ts }, FlowAction::ReadCache(entry))
                } else {
                    (Phase::AwaitFetch, FlowAction::Fetch)
                },
            },
            (Phase::AwaitCache { ts }, FlowEvent::CacheRead(hit)) => if !hit {
                (Phase::AwaitFetch, FlowAction::Fetch)
            } else {
                match command {
                    CachedCommand::FavoriteArtists => (
                        Phase::Done(FlowResult::Cached { is_stale: false }),
                        FlowAction::Finish(FlowResult::Cached { is_stale: false }),
                    ),
                    _ => (Phase::AwaitFreshness { ts }, FlowAction::CheckFresh(ts)),
                }
            },
            (Phase::AwaitFreshness { ts }, FlowEvent::Freshness(fresh)) => match command {
                CachedCommand::FavoriteArtists => if fresh {
                    (Phase::AwaitCache { ts }, FlowAction::ReadCache(entry))
                } else {
                    (Phase::AwaitFetch, FlowAction::Fetch)
                },
                _ => (
                    Phase::Done(FlowResult::Cached { is_stale: !fresh }),
                    FlowAction::Finish(FlowResult::Cached { is_stale: !fresh }),
                ),
            },
            (Phase::AwaitFetch, FlowEvent::Fetched(ok)) => if ok {
                (Phase::AwaitEncode, FlowAction::Encode)
            } else {
                (Phase::Done(FlowResult::Failed), FlowAction::Finish(FlowResult::Failed))
            },
            (Phase::AwaitEncode, FlowEvent::Encoded(ok)) => if ok {
                (Phase::AwaitWrite, FlowAction::WriteCache(entry))
            } else {
                (Phase::Done(FlowResult::Fetched), FlowAction::Finish(FlowResult::Fetched))
            },
            (Phase::AwaitWrite, FlowEvent::Written) => (Phase::AwaitReload, FlowAction::ReloadMeta),
            (Phase::AwaitReload, FlowEvent::MetaReloaded { meta, now }) => (
                Phase::AwaitSave,
                FlowAction::SaveMeta(meta.stamped(entry, now)),
            ),
            (Phase::AwaitSave, FlowEvent::Saved) => (
                Phase::Done(FlowResult::Fetched),
                FlowAction::Finish(FlowResult::Fetched),
            ),
            (phase, _) => (phase, FlowAction::Idle),
        };
        self.phase = phase;
        action
    }
}

/// The answer of the home page command: the page, and whether it came from a
/// cache whose stamp is no longer fresh.
#[derive(Clone, Debug)]
pub struct HomePageCached<H> {
    pub home: H,
    pub is_stale: bool,
}

impl<H> HomePageCached<H> {
    pub fn new(home: H, is_stale: bool) -> (page: HomePageCached<H>)
        ensures
            page.home == home,
            page.is_stale == is_stale,
    {
        HomePageCached { home, is_stale }
    }
}

/// The answer of the home page command once its flow ended with `result`,
/// `home` being the page that was decoded from the cache or fetched; `None`
/// when the fetch failed, the caller then answering with the service's error.
pub fn home_page_answer<H>(home: H, result: FlowResult) -> (answer: Option<HomePageCached<H>>)
    ensures
        match result {
            FlowResult::Cached { is_stale } => answer == Some(HomePageCached { home, is_stale }),
            FlowResult::Fetched => answer == Some(HomePageCached { home, is_stale: false }),
            FlowResult::Failed => answer is None,
        },
{
    match result {
        FlowResult::Cached { is_stale } => Some(HomePageCached::new(home, is_stale)),
        FlowResult::Fetched => Some(HomePageCached::new(home, false)),
        FlowResult::Failed => None,
    }
}

} // verus!
