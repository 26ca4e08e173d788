use sone_commands::cache::{
    cache_file_name, home_page_answer, CacheEntry, CacheFlow, CacheMeta, CachedCommand,
    FlowAction, FlowEvent, FlowResult, HomePageCached, Phase,
};

fn meta(home: u64, artists: u64) -> CacheMeta {
    CacheMeta { home_page_ts: home, favorite_artists_ts: artists }
}

fn is_finish(action: &FlowAction, expected: FlowResult) -> bool {
    matches!(action, FlowAction::Finish(r) if *r == expected)
}

#[test]
fn home_page_served_from_fresh_cache() {
    let mut flow = CacheFlow::new(CachedCommand::HomePage);
    assert!(matches!(flow.step(FlowEvent::Begin), FlowAction::LoadMeta));
    assert!(matches!(
        flow.step(FlowEvent::MetaLoaded(meta(1700, 0))),
        FlowAction::ReadCache(CacheEntry::HomePage)
    ));
    assert!(matches!(flow.step(FlowEvent::CacheRead(true)), FlowAction::CheckFresh(1700)));
    let last = flow.step(FlowEvent::Freshness(true));
    assert!(is_finish(&last, FlowResult::Cached { is_stale: false }));
    assert!(flow.is_done());
}

#[test]
fn home_page_served_from_stale_cache() {
    let mut flow = CacheFlow::new(CachedCommand::HomePage);
    flow.step(FlowEvent::Begin);
    flow.step(FlowEvent::MetaLoaded(meta(5, 0)));
    flow.step(FlowEvent::CacheRead(true));
    let last = flow.step(FlowEvent::Freshness(false));
    assert!(is_finish(&last, FlowResult::Cached { is_stale: true }));
}

#[test]
fn home_page_without_stamp_fetches_and_caches() {
    let mut flow = CacheFlow::new(CachedCommand::HomePage);
    flow.step(FlowEvent::Begin);
    assert!(matches!(flow.step(FlowEvent::MetaLoaded(meta(0, 9))), FlowAction::Fetch));
    assert!(matches!(flow.step(FlowEvent::Fetched(true)), FlowAction::Encode));
    assert!(matches!(
        flow.step(FlowEvent::Encoded(true)),
        FlowAction::WriteCache(CacheEntry::HomePage)
    ));
    assert!(matches!(flow.step(FlowEvent::Written), FlowAction::ReloadMeta));
    match flow.step(FlowEvent::MetaReloaded { meta: meta(3, 9), now: 1234 }) {
        FlowAction::SaveMeta(saved) => {
            assert_eq!(saved.home_page_ts, 1234);
            assert_eq!(saved.favorite_artists_ts, 9);
        }
        other => panic!("unexpected action {:?}", other),
    }
    assert!(is_finish(&flow.step(FlowEvent::Saved), FlowResult::Fetched));
}

#[test]
fn home_page_unreadable_cache_fetches() {
    let mut flow = CacheFlow::new(CachedCommand::HomePage);
    flow.step(FlowEvent::Begin);
    flow.step(FlowEvent::MetaLoaded(meta(77, 0)));
    assert!(matches!(flow.step(FlowEvent::CacheRead(false)), FlowAction::Fetch));
}

#[test]
fn failed_fetch_ends_without_caching() {
    let mut flow = CacheFlow::new(CachedCommand::HomePage);
    flow.step(FlowEvent::Begin);
    flow.step(FlowEvent::MetaLoaded(meta(0, 0)));
    let last = flow.step(FlowEvent::Fetched(false));
    assert!(is_finish(&last, FlowResult::Failed));
    assert!(matches!(flow.step(FlowEvent::Written), FlowAction::Idle));
    assert!(matches!(flow.phase, Phase::Done(FlowResult::Failed)));
}

#[test]
fn unencodable_result_is_answered_without_caching() {
    let mut flow = CacheFlow::new(CachedCommand::FavoriteArtists);
    flow.step(FlowEvent::Begin);
    flow.step(FlowEvent::MetaLoaded(meta(0, 0)));
    flow.step(FlowEvent::Freshness(false));
    flow.step(FlowEvent::Fetched(true));
    let last = flow.step(FlowEvent::Encoded(false));
    assert!(is_finish(&last, FlowResult::Fetched));
}

#[test]
fn refresh_fetches_without_looking_at_cache() {
    let mut flow = CacheFlow::new(CachedCommand::RefreshHomePage);
    assert!(matches!(flow.step(FlowEvent::Begin), FlowAction::Fetch));
    flow.step(FlowEvent::Fetched(true));
    flow.step(FlowEvent::Encoded(true));
    flow.step(FlowEvent::Written);
    match flow.step(FlowEvent::MetaReloaded { meta: meta(1, 2), now: 50 }) {
        FlowAction::SaveMeta(saved) => {
            assert_eq!(saved.home_page_ts, 50);
            assert_eq!(saved.favorite_artists_ts, 2);
        }
        other => panic!("unexpected action {:?}", other),
    }
    assert!(is_finish(&flow.step(FlowEvent::Saved), FlowResult::Fetched));
}

#[test]
fn artists_served_from_fresh_cache() {
    let mut flow = CacheFlow::new(CachedCommand::FavoriteArtists);
    flow.step(FlowEvent::Begin);
    assert!(matches!(flow.step(FlowEvent::MetaLoaded(meta(3, 400))), FlowAction::CheckFresh(400)));
    assert!(matches!(
        flow.step(FlowEvent::Freshness(true)),
        FlowAction::ReadCache(CacheEntry::FavoriteArtists)
    ));
    let last = flow.step(FlowEvent::CacheRead(true));
    assert!(is_finish(&last, FlowResult::Cached { is_stale: false }));
}

#[test]
fn artists_stale_cache_is_not_read() {
    let mut flow = CacheFlow::new(CachedCommand::FavoriteArtists);
    flow.step(FlowEvent::Begin);
    flow.step(FlowEvent::MetaLoaded(meta(3, 400)));
    assert!(matches!(flow.step(FlowEvent::Freshness(false)), FlowAction::Fetch));
    flow.step(FlowEvent::Fetched(true));
    assert!(matches!(
        flow.step(FlowEvent::Encoded(true)),
        FlowAction::WriteCache(CacheEntry::FavoriteArtists)
    ));
    flow.step(FlowEvent::Written);
    match flow.step(FlowEvent::MetaReloaded { meta: meta(3, 400), now: 999 }) {
        FlowAction::SaveMeta(saved) => {
            assert_eq!(saved.home_page_ts, 3);
            assert_eq!(saved.favorite_artists_ts, 999);
        }
        other => panic!("unexpected action {:?}", other),
    }
}

#[test]
fn unexpected_event_is_ignored() {
    let mut flow = CacheFlow::new(CachedCommand::HomePage);
    assert!(matches!(flow.step(FlowEvent::Saved), FlowAction::Idle));
    assert!(matches!(flow.phase, Phase::Start));
}

#[test]
fn stamp_read_back() {
    let m = meta(10, 20);
    let h = m.stamped(CacheEntry::HomePage, 99);
    assert_eq!(h.timestamp(CacheEntry::HomePage), 99);
    assert_eq!(h.timestamp(CacheEntry::FavoriteArtists), 20);
    let a = m.stamped(CacheEntry::FavoriteArtists, 7);
    assert_eq!(a.timestamp(CacheEntry::FavoriteArtists), 7);
    assert_eq!(a.timestamp(CacheEntry::HomePage), 10);
    let e = CacheMeta::empty();
    assert_eq!(e.home_page_ts, 0);
    assert_eq!(e.favorite_artists_ts, 0);
}

#[test]
fn file_names() {
    assert_eq!(cache_file_name(CacheEntry::HomePage), "home_page.json");
    assert_eq!(cache_file_name(CacheEntry::FavoriteArtists), "favorite_artists.json");
    assert_eq!(CachedCommand::RefreshHomePage.entry(), CacheEntry::HomePage);
    assert_eq!(CachedCommand::FavoriteArtists.entry(), CacheEntry::FavoriteArtists);
}

#[test]
fn home_page_answers() {
    let cached = home_page_answer("page", FlowResult::Cached { is_stale: true }).unwrap();
    assert_eq!(cached.home, "page");
    assert!(cached.is_stale);
    let fetched = home_page_answer(7u32, FlowResult::Fetched).unwrap();
    assert_eq!(fetched.home, 7);
    assert!(!fetched.is_stale);
    assert!(home_page_answer(1u8, FlowResult::Failed).is_none());
    let page = HomePageCached::new(vec![1, 2], false);
    assert_eq!(page.home, vec![1, 2]);
    assert!(!page.is_stale);
}
