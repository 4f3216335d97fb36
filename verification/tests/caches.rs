use ph::app_state::{AppState, Command, MockData};
use ph::cache::feed::{
    contains_message, fetch_start, take_refresh_page, FeedData, FetchStep, RefreshPlan,
};
use ph::cache::mailing_list::{sort_by_name, MailingListData};
use ph::cache::paging::ListsCollector;
use ph::cache::patch::{PatchData, PatchStep};
use ph::error::{CacheError, FatalActorError, FsError, LoreApiError};
use ph::cache::str_map::StrMap;
use ph::lore::{LoreMailingList, LorePage, LorePatchMetadata, Timestamp};
use ph::state::{checked_slice, is_first_update_same, PatchMetaCache};

fn at(secs: i64) -> Timestamp {
    Timestamp { secs, nanos: 0 }
}

fn list(name: &str, secs: i64) -> LoreMailingList {
    LoreMailingList { name: name.to_string(), description: format!("{} list", name), last_update: at(secs) }
}

fn patch(id: &str, secs: i64) -> LorePatchMetadata {
    LorePatchMetadata { message_id: id.to_string(), title: format!("title {}", id), last_update: at(secs) }
}

#[test]
fn mailing_list_refresh_sorts_by_name() {
    let mut d = MailingListData::new(MailingListData::cache_path_in("/c"));
    assert_eq!(d.cache_path, "/c/mailing_lists.toml");
    assert_eq!(d.len(), 0);
    assert!(d.get(0).is_none());
    d.apply_refresh(vec![list("netdev", 3), list("amd-gfx", 1), list("lkml", 2)]);
    let names: Vec<String> = d.lists.iter().map(|l| l.name.clone()).collect();
    assert_eq!(names, vec!["amd-gfx", "lkml", "netdev"]);
    assert_eq!(d.last_updated, Some(at(1)));
    assert_eq!(d.get_slice(1..10).len(), 2);
    assert_eq!(d.get_slice(5..10).len(), 0);
    assert!(d.is_available(0..3));
    assert!(!d.is_available(0..4));
    assert_eq!(d.get(2).unwrap().name, "netdev");
}

#[test]
fn mailing_list_cache_validity() {
    let mut d = MailingListData::new(String::from("/c/m.toml"));
    assert!(d.is_cache_valid(None));
    assert!(!d.is_cache_valid(Some(at(5))));
    d.apply_refresh(vec![list("a", 5)]);
    assert!(d.is_cache_valid(Some(at(5))));
    assert!(d.is_cache_valid(Some(at(4))));
    assert!(!d.is_cache_valid(Some(at(6))));
    assert!(d.is_cache_valid(None));
}

#[test]
fn mailing_list_persist_then_load() {
    let mut d = MailingListData::new(String::from("/c/m.toml"));
    d.apply_refresh(vec![list("b", 2), list("a", 1)]);
    let data = d.to_cache_data();
    let mut loaded = MailingListData::new(String::from("/c/m.toml"));
    loaded.from_cache_data(data);
    assert_eq!(loaded.lists, d.lists);
    assert_eq!(loaded.last_updated, d.last_updated);
    loaded.invalidate();
    assert_eq!(loaded.len(), 0);
    assert!(loaded.last_updated.is_none());
}

#[test]
fn sorting_keeps_every_list() {
    let v = vec![list("c", 0), list("a", 0), list("b", 0), list("a", 1)];
    let s = sort_by_name(&v);
    assert_eq!(s.len(), 4);
    let names: Vec<&str> = s.iter().map(|l| l.name.as_str()).collect();
    assert_eq!(names, vec!["a", "a", "b", "c"]);
    // lists of the same name keep the order in which they came
    assert_eq!(s[0].last_update, at(0));
    assert_eq!(s[1].last_update, at(1));
    let v = vec![list("b", 5), list("a", 9), list("b", 2), list("a", 1)];
    let s = sort_by_name(&v);
    let order: Vec<(String, i64)> = s.iter().map(|l| (l.name.clone(), l.last_update.secs)).collect();
    assert_eq!(order, vec![(String::from("a"), 9), (String::from("a"), 1), (String::from("b"), 5), (String::from("b"), 2)]);
}

#[test]
fn feed_paths_and_reads() {
    let mut f = FeedData::new(FeedData::dir_in("/c"));
    assert_eq!(f.cache_dir, "/c/feed");
    assert_eq!(f.get_cache_path("lkml"), "/c/feed/lkml.toml");
    assert_eq!(f.len("lkml"), 0);
    assert!(!f.contains_range("lkml", 0..0));
    f.append("lkml", vec![patch("<1>", 9), patch("<2>", 8)]);
    assert_eq!(f.len("lkml"), 2);
    assert!(f.contains_range("lkml", 0..2));
    assert!(!f.contains_range("lkml", 0..3));
    assert_eq!(f.newest_message_id("lkml"), Some(String::from("<1>")));
    assert!(f.has_item_in_cache("lkml", &patch("<2>", 0)));
    assert!(!f.has_item_in_cache("lkml", &patch("<3>", 0)));
    assert_eq!(f.get("lkml", 1).unwrap().message_id, "<2>");
    assert_eq!(f.get_slice("lkml", 1..5).len(), 1);
    assert_eq!(f.last_updated.get("lkml"), Some(&Some(at(9))));
    f.remove_list("lkml");
    assert_eq!(f.len("lkml"), 0);
}

#[test]
fn feed_fetch_pages_until_target() {
    let mut f = FeedData::new(String::from("/c/feed"));
    assert_eq!(fetch_start(0, 30), Some(0));
    assert_eq!(fetch_start(40, 30), None);
    let page = LorePage { items: vec![patch("<1>", 1), patch("<2>", 1)], next_page_index: Some(2) };
    assert_eq!(f.take_fetched_page("l", 30, Some(page)), FetchStep::Continue(2));
    let page = LorePage { items: vec![patch("<3>", 1)], next_page_index: Some(40) };
    assert_eq!(f.take_fetched_page("l", 30, Some(page)), FetchStep::Stop);
    assert_eq!(f.len("l"), 3);
    let empty: LorePage<LorePatchMetadata> = LorePage { items: vec![], next_page_index: Some(3) };
    assert_eq!(f.take_fetched_page("l", 30, Some(empty)), FetchStep::Stop);
    assert_eq!(f.take_fetched_page("l", 30, None), FetchStep::Stop);
    assert_eq!(f.len("l"), 3);
}

#[test]
fn feed_refresh_stops_at_known_message() {
    let mut f = FeedData::new(String::from("/c/feed"));
    assert_eq!(f.refresh_plan("l"), RefreshPlan::FetchUntil { target_index: 0 });
    f.append("l", vec![patch("<1>", 1), patch("<0>", 0)]);
    let newest = match f.refresh_plan("l") {
        RefreshPlan::Scan { newest_id } => newest_id,
        other => panic!("unexpected {:?}", other),
    };
    assert_eq!(newest, "<1>");
    let mut collected = Vec::new();
    let page = LorePage { items: vec![patch("<9>", 9), patch("<8>", 8)], next_page_index: Some(2) };
    assert_eq!(take_refresh_page(&mut collected, &newest, Some(page)), FetchStep::Continue(2));
    let page = LorePage { items: vec![patch("<7>", 7), patch("<1>", 1), patch("<0>", 0)], next_page_index: Some(4) };
    assert_eq!(take_refresh_page(&mut collected, &newest, Some(page)), FetchStep::Stop);
    // the page holding the newest cached record gives nothing
    let ids: Vec<&str> = collected.iter().map(|p| p.message_id.as_str()).collect();
    assert_eq!(ids, vec!["<9>", "<8>"]);
    f.prepend("l", collected);
    let ids: Vec<String> = f.get_slice("l", 0..10).into_iter().map(|p| p.message_id).collect();
    assert_eq!(ids, vec!["<9>", "<8>", "<1>", "<0>"]);
    assert_eq!(f.last_updated.get("l"), Some(&Some(at(9))));
    assert_eq!(f.newest_message_id("l"), Some(String::from("<9>")));
    assert!(contains_message(&vec![patch("<8>", 1), patch("<1>", 1)], "<1>"));
    let mut none = Vec::new();
    assert_eq!(take_refresh_page(&mut none, "<1>", None), FetchStep::Stop);
    assert!(none.is_empty());
}

#[test]
fn feed_persist_then_merge() {
    let mut f = FeedData::new(String::from("/c/feed"));
    f.append("a", vec![patch("<1>", 1)]);
    f.append("b", vec![patch("<2>", 2)]);
    let data = f.cache_data_for("a");
    assert_eq!(data.feeds.len(), 1);
    let mut g = FeedData::new(String::from("/c/feed"));
    g.merge(data);
    assert_eq!(g.len("a"), 1);
    assert_eq!(g.len("b"), 0);
    assert_eq!(g.get("a", 0).unwrap().message_id, "<1>");
}

#[test]
fn lists_collector_gathers_pages() {
    let mut c = ListsCollector::new();
    let p = LorePage { items: vec![list("a", 0)], next_page_index: Some(1) };
    assert_eq!(c.take_page(Some(p)), Some(1));
    let p = LorePage { items: vec![list("b", 0)], next_page_index: None };
    assert_eq!(c.take_page(Some(p)), None);
    assert_eq!(c.lists.len(), 2);
    assert_eq!(c.take_page(None), None);
}

#[test]
fn patch_buffer_read_after_add() {
    let mut p = PatchData::new(PatchData::dir_in("/c"));
    assert_eq!(p.get_cache_path("lkml", "<1@x>"), "/c/patch/lkml/<1@x>.mbox");
    assert_eq!(p.get_buffer_key("lkml", "<1@x>"), "lkml:<1@x>");
    assert!(!p.is_in_buffer("lkml", "<1@x>"));
    p.add_to_buffer("lkml", "<1@x>", String::from("diff --git"));
    assert!(p.is_in_buffer("lkml", "<1@x>"));
    assert_eq!(p.get_from_buffer("lkml", "<1@x>"), Some(String::from("diff --git")));
    assert_eq!(p.get_from_buffer("lkml", "<2@x>"), None);
    p.remove_from_buffer("lkml", "<1@x>");
    assert!(!p.is_in_buffer("lkml", "<1@x>"));
    assert!(p.is_available("lkml", "<1@x>"));
}

#[test]
fn patch_buffer_evicts_least_recent() {
    let mut p = PatchData::new(String::from("/c/patch"));
    for i in 0..50 {
        p.add_to_buffer("l", &format!("{}", i), format!("c{}", i));
    }
    assert_eq!(p.get_from_buffer("l", "0"), Some(String::from("c0")));
    p.add_to_buffer("l", "new", String::from("n"));
    assert!(p.is_in_buffer("l", "0"));
    assert!(!p.is_in_buffer("l", "1"));
    assert!(p.is_in_buffer("l", "new"));
}

#[test]
fn str_map_operations() {
    let mut m: StrMap<u32> = StrMap::new();
    assert_eq!(m.len(), 0);
    m.insert(String::from("a"), 1);
    m.insert(String::from("b"), 2);
    m.insert(String::from("a"), 3);
    assert_eq!(m.len(), 2);
    assert_eq!(m.get("a"), Some(&3));
    assert!(m.contains_key("b"));
    assert_eq!(m.remove("b"), Some(2));
    assert_eq!(m.remove("b"), None);
    let mut other: StrMap<u32> = StrMap::new();
    other.insert(String::from("a"), 7);
    other.insert(String::from("c"), 8);
    m.extend(other);
    assert_eq!(m.get("a"), Some(&7));
    assert_eq!(m.get("c"), Some(&8));
}

#[test]
fn patch_meta_cache_fills_page_by_page() {
    let mut c = PatchMetaCache::new();
    assert!(c.needs_page_for_index("l", 0));
    let page = LorePage { items: vec![patch("<1>", 5), patch("<2>", 4)], next_page_index: Some(2) };
    assert!(c.take_page("l", Some(page)));
    assert!(!c.needs_page_for_index("l", 1));
    assert!(c.needs_page_for_end("l", 3));
    assert!(!c.take_page("l", None));
    assert_eq!(c.len("l"), 2);
    assert_eq!(c.get("l", 0).unwrap().message_id, "<1>");
    assert_eq!(c.get_slice("l", 0..2).len(), 2);
    assert_eq!(c.get_slice("l", 0..3).len(), 0);
    c.invalidate("l");
    assert_eq!(c.len("l"), 0);
    assert_eq!(checked_slice(&vec![patch("<1>", 0)], 1..1).len(), 0);
    assert!(is_first_update_same(&vec![patch("<1>", 5)], &vec![patch("<9>", 5)]));
    assert!(!is_first_update_same(&vec![], &vec![patch("<9>", 5)]));
}

#[test]
fn app_state_defaults() {
    let s = AppState::default();
    assert!(!s.initialized);
    assert!(AppState::started().initialized);
    let m = MockData::default();
    assert!(m.executed_commands.is_empty());
    assert!(!m.tui_run);
    assert!(matches!(Command::Lists { page: 0, count: 1 }, Command::Lists { .. }));
}

#[test]
fn patch_buffer_add_then_get_gives_content() {
    let mut p = PatchData::new(String::from("/c/patch"));
    p.add_to_buffer("l", "m", String::from("first"));
    p.add_to_buffer("l", "m", String::from("second"));
    assert_eq!(p.get_from_buffer("l", "m"), Some(String::from("second")));
    assert_eq!(p.get_from_buffer("l", "m"), Some(String::from("second")));
}

#[test]
fn patch_fetch_steps() {
    let mut p = PatchData::new(String::from("/c/patch"));
    let missing = FsError::OperationFailed {
        path: None,
        operation: String::from("read"),
        retryable: false,
        source: std::io::Error::new(std::io::ErrorKind::NotFound, "gone"),
    };
    assert!(matches!(p.take_disk_read("l", "a", Err(missing)), PatchStep::FetchArchive));
    assert!(!p.is_in_buffer("l", "a"));
    let fatal = FsError::Fatal(FatalActorError::ActorDied { actor_name: "fs" });
    assert!(matches!(p.take_disk_read("l", "a", Err(fatal)), PatchStep::Done(Err(CacheError::Fatal(_)))));
    match p.take_disk_read("l", "a", Ok(String::from("from disk"))) {
        PatchStep::Done(Ok(c)) => assert_eq!(c, "from disk"),
        other => panic!("unexpected {:?}", other),
    }
    assert_eq!(p.get_from_buffer("l", "a"), Some(String::from("from disk")));
    assert_eq!(p.take_archive_fetch("l", "b", Ok(String::from("fetched"))).unwrap(), "fetched");
    assert_eq!(p.get_from_buffer("l", "b"), Some(String::from("fetched")));
    let err = LoreApiError::RequestFailed { endpoint: String::from("/raw"), message: String::from("x"), retryable: true };
    match p.take_archive_fetch("l", "c", Err(err)) {
        Err(CacheError::FileOperationFailed { path, operation, .. }) => {
            assert_eq!(path, "/raw");
            assert_eq!(operation, "fetch patch");
        }
        other => panic!("unexpected {:?}", other),
    }
    assert!(!p.is_in_buffer("l", "c"));
}
