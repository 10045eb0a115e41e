use note2self::{
    App, Card, Entry, FetchCommand, FetchCoordinator, FetchError, Msg, RequestHandle,
    ResourceKind, ResourceState, SortKey, DEFAULT_BASE_URL,
};

fn entry(id: i64, date: &str, content: Option<&str>, url: Option<&str>) -> Entry {
    Entry {
        time: "2021-01-01T00:00:00Z".to_string(),
        entry_id: id,
        content: content.map(|c| c.to_string()),
        date: date.to_string(),
        url: url.map(|u| u.to_string()),
        screenshot_file: None,
        thumbnail_file: None,
    }
}

fn loaded_app() -> (App, Vec<FetchCommand>) {
    let mut app = App::new(DEFAULT_BASE_URL);
    let cmds = app.update(Msg::RequestLoad);
    (app, cmds)
}

fn loaded_entry_ids(app: &App) -> Vec<i64> {
    match app.entries() {
        ResourceState::Loaded(list) => list.iter().map(|e| e.entry_id).collect(),
        other => panic!("entries not loaded: {:?}", other),
    }
}

#[test]
fn new_app_is_idle() {
    let app = App::new(DEFAULT_BASE_URL);
    assert!(matches!(app.entries(), ResourceState::Idle));
    assert!(matches!(app.tags(), ResourceState::Idle));
    assert_eq!(app.sort(), None);
    assert_eq!(app.tag_filter(), &None);
    assert!(!app.is_selected(&"todo".to_string()));
    assert_eq!(app.base_url(), "http://localhost:3000");
    assert_eq!(app.entries_notice(), Some("No Content"));
}

#[test]
fn request_load_issues_both_fetches() {
    let (app, cmds) = loaded_app();
    assert_eq!(cmds.len(), 2);
    assert_eq!(cmds[0].handle, RequestHandle { kind: ResourceKind::Entries, generation: 1 });
    assert_eq!(cmds[0].url, "http://localhost:3000/all/cache");
    assert_eq!(cmds[1].handle, RequestHandle { kind: ResourceKind::Tags, generation: 1 });
    assert_eq!(cmds[1].url, "http://localhost:3000/all/tags");
    assert!(app.entries().is_loading());
    assert!(app.tags().is_loading());
}

#[test]
fn initial_load_scenario() {
    let (mut app, cmds) = loaded_app();
    let list = vec![entry(1, "2021-01-01", Some("hello"), Some("http://x.com"))];
    let tags = vec!["research".to_string(), "todo".to_string()];
    assert!(app.update(Msg::EntriesArrived(cmds[0].handle, Ok(list))).is_empty());
    assert!(app.update(Msg::TagsArrived(cmds[1].handle, Ok(tags))).is_empty());
    match app.entries() {
        ResourceState::Loaded(list) => {
            assert_eq!(list.len(), 1);
            assert_eq!(list[0].entry_id, 1);
            assert_eq!(list[0].date, "2021-01-01");
            assert_eq!(list[0].content.as_deref(), Some("hello"));
            assert_eq!(list[0].url.as_deref(), Some("http://x.com"));
        }
        other => panic!("entries not loaded: {:?}", other),
    }
    match app.tags() {
        ResourceState::Loaded(tags) => assert_eq!(tags, &vec!["research".to_string(), "todo".to_string()]),
        other => panic!("tags not loaded: {:?}", other),
    }
    assert_eq!(app.entries_notice(), None);
}

#[test]
fn entries_failure_scenario() {
    let (mut app, cmds) = loaded_app();
    let tags = vec!["research".to_string()];
    app.update(Msg::TagsArrived(cmds[1].handle, Ok(tags)));
    app.update(Msg::EntriesArrived(cmds[0].handle, Err(FetchError::NetworkError)));
    assert!(matches!(app.entries(), ResourceState::Failed(FetchError::NetworkError)));
    assert!(matches!(app.tags(), ResourceState::Loaded(t) if t == &vec!["research".to_string()]));
    assert_eq!(app.entries_notice(), Some("No Content"));
    assert!(app.cards().is_empty());
}

#[test]
fn failure_replaces_loaded_entries() {
    let (mut app, cmds) = loaded_app();
    app.update(Msg::EntriesArrived(cmds[0].handle, Ok(vec![entry(1, "d", None, None)])));
    let again = app.update(Msg::SortBy(SortKey::Date));
    app.update(Msg::EntriesArrived(again[0].handle, Err(FetchError::DecodeError)));
    assert!(matches!(app.entries(), ResourceState::Failed(FetchError::DecodeError)));
}

#[test]
fn failed_tags_leave_entries_alone() {
    let (mut app, cmds) = loaded_app();
    app.update(Msg::EntriesArrived(cmds[0].handle, Ok(vec![entry(7, "d", None, None)])));
    app.update(Msg::TagsArrived(cmds[1].handle, Err(FetchError::NetworkError)));
    assert!(matches!(app.tags(), ResourceState::Failed(FetchError::NetworkError)));
    assert_eq!(loaded_entry_ids(&app), vec![7]);
}

#[test]
fn failed_entries_leave_tags_loading() {
    let (mut app, cmds) = loaded_app();
    app.update(Msg::EntriesArrived(cmds[0].handle, Err(FetchError::NetworkError)));
    assert!(app.tags().is_loading());
    app.update(Msg::TagsArrived(cmds[1].handle, Ok(vec!["a".to_string()])));
    assert!(matches!(app.tags(), ResourceState::Loaded(t) if t.len() == 1));
}

#[test]
fn stale_entries_response_is_dropped() {
    let (mut app, first) = loaded_app();
    let second = app.update(Msg::SortBy(SortKey::Url));
    let a = first[0].handle;
    let b = second[0].handle;
    app.update(Msg::EntriesArrived(a, Ok(vec![entry(1, "a", None, None)])));
    assert!(app.entries().is_loading());
    app.update(Msg::EntriesArrived(b, Ok(vec![entry(2, "b", None, None)])));
    assert_eq!(loaded_entry_ids(&app), vec![2]);
    app.update(Msg::EntriesArrived(a, Ok(vec![entry(1, "a", None, None)])));
    assert_eq!(loaded_entry_ids(&app), vec![2]);
}

#[test]
fn stale_tags_response_is_dropped() {
    let (mut app, first) = loaded_app();
    let second = app.update(Msg::RequestLoad);
    app.update(Msg::TagsArrived(second[1].handle, Ok(vec!["new".to_string()])));
    app.update(Msg::TagsArrived(first[1].handle, Ok(vec!["old".to_string()])));
    assert!(matches!(app.tags(), ResourceState::Loaded(t) if t == &vec!["new".to_string()]));
}

#[test]
fn unissued_handle_is_dropped() {
    let mut app = App::new(DEFAULT_BASE_URL);
    let fake = RequestHandle { kind: ResourceKind::Entries, generation: 0 };
    app.update(Msg::EntriesArrived(fake, Ok(vec![entry(1, "a", None, None)])));
    assert!(matches!(app.entries(), ResourceState::Idle));
}

#[test]
fn tags_handle_does_not_answer_entries() {
    let (mut app, cmds) = loaded_app();
    app.update(Msg::EntriesArrived(cmds[1].handle, Ok(vec![entry(1, "a", None, None)])));
    assert!(app.entries().is_loading());
    assert!(app.tags().is_loading());
}

#[test]
fn sort_by_date_requests_sort_time() {
    let (mut app, _) = loaded_app();
    let cmds = app.update(Msg::SortBy(SortKey::Date));
    assert_eq!(cmds.len(), 1);
    assert_eq!(cmds[0].handle.kind, ResourceKind::Entries);
    assert_eq!(cmds[0].url, "http://localhost:3000/all/cache?sort=time");
    assert_eq!(app.sort(), Some(SortKey::Date));
}

#[test]
fn sort_by_url_requests_sort_url() {
    let (mut app, _) = loaded_app();
    let cmds = app.update(Msg::SortBy(SortKey::Url));
    assert_eq!(cmds.len(), 1);
    assert_eq!(cmds[0].url, "http://localhost:3000/all/cache?sort=url");
}

#[test]
fn filter_by_tag_requests_sort_time_and_tag() {
    let (mut app, _) = loaded_app();
    let cmds = app.update(Msg::FilterByTag("research".to_string()));
    assert_eq!(cmds.len(), 1);
    assert!(cmds[0].url.contains("sort=time"));
    assert!(cmds[0].url.contains("tag=research"));
    assert_eq!(cmds[0].url, "http://localhost:3000/all/cache?sort=time&tag=research");
}

#[test]
fn clicking_tag_refetches_entries_only() {
    let (mut app, cmds) = loaded_app();
    app.update(Msg::TagsArrived(cmds[1].handle, Ok(vec!["research".to_string(), "todo".to_string()])));
    let before = app.coordinator();
    let next = app.update(Msg::FilterByTag("todo".to_string()));
    assert_eq!(next.len(), 1);
    assert_eq!(next[0].handle.kind, ResourceKind::Entries);
    assert!(next[0].url.contains("tag=todo"));
    assert!(next[0].url.contains("sort=time"));
    assert!(matches!(app.tags(), ResourceState::Loaded(t) if t == &vec!["research".to_string(), "todo".to_string()]));
    assert_eq!(app.coordinator().tags_issued, before.tags_issued);
    assert_eq!(app.coordinator().tags_pending, before.tags_pending);
    assert!(app.is_selected(&"todo".to_string()));
    assert_eq!(app.tag_filter(), &Some("todo".to_string()));
}

#[test]
fn sort_after_filter_keeps_tag() {
    let (mut app, _) = loaded_app();
    app.update(Msg::FilterByTag("todo".to_string()));
    let cmds = app.update(Msg::SortBy(SortKey::Url));
    assert_eq!(cmds[0].url, "http://localhost:3000/all/cache?sort=url&tag=todo");
}

#[test]
fn filter_encodes_reserved_tag() {
    let (mut app, _) = loaded_app();
    let cmds = app.update(Msg::FilterByTag("a&b #c".to_string()));
    assert_eq!(cmds[0].url, "http://localhost:3000/all/cache?sort=time&tag=a%26b+%23c");
}

#[test]
fn selecting_twice_and_clearing() {
    let (mut app, _) = loaded_app();
    app.update(Msg::FilterByTag("a".to_string()));
    app.update(Msg::FilterByTag("b".to_string()));
    app.update(Msg::FilterByTag("a".to_string()));
    assert!(app.is_selected(&"a".to_string()));
    assert!(app.is_selected(&"b".to_string()));
    assert!(!app.is_selected(&"c".to_string()));
    let cmds = app.update(Msg::ClearTags);
    assert!(!app.is_selected(&"a".to_string()));
    assert!(!app.is_selected(&"b".to_string()));
    assert_eq!(app.tag_filter(), &None);
    assert_eq!(cmds.len(), 1);
    assert_eq!(cmds[0].url, "http://localhost:3000/all/cache?sort=time");
}

#[test]
fn pointer_and_key_intents_change_nothing() {
    let (mut app, _) = loaded_app();
    let before = app.coordinator();
    assert!(app.update(Msg::KeyDown).is_empty());
    assert!(app.update(Msg::CardMouseOver).is_empty());
    assert_eq!(app.coordinator(), before);
    assert!(app.entries().is_loading());
}

#[test]
fn cards_of_loaded_entries() {
    let (mut app, cmds) = loaded_app();
    let mut e = entry(1, "2021-01-01", Some("hello"), Some("http://x.com/page"));
    e.thumbnail_file = Some("shots/1.png".to_string());
    e.screenshot_file = Some("shots/1.png".to_string());
    let plain = entry(2, "2021-01-02", None, None);
    app.update(Msg::EntriesArrived(cmds[0].handle, Ok(vec![e, plain])));
    let cards = app.cards();
    assert_eq!(cards.len(), 2);
    assert_eq!(cards[0].date, "2021-01-01");
    assert_eq!(cards[0].link, "http://x.com/page");
    assert_eq!(cards[0].host, "x.com");
    assert_eq!(cards[0].text, "hello");
    assert_eq!(cards[0].thumbnail, "shots/1_tn.png");
    assert_eq!(cards[0].screenshot, "shots/1.png");
    assert_eq!(cards[1].link, "");
    assert_eq!(cards[1].host, "");
    assert_eq!(cards[1].text, "");
    assert_eq!(cards[1].thumbnail, "");
}

#[test]
fn card_host_of_unparsable_url_is_empty() {
    let e = entry(3, "d", None, Some("not a url"));
    let card = Card::of(&e);
    assert_eq!(card.host, "");
    assert_eq!(card.link, "not a url");
}

#[test]
fn card_with_given_host() {
    let e = entry(3, "d", Some("c"), Some("http://y.org"));
    let card = Card::with_host(&e, Some("label".to_string()));
    assert_eq!(card.host, "label");
    assert_eq!(card.text, "c");
}

#[test]
fn thumbnail_of_short_name() {
    assert_eq!(note2self::thumbnail_name(&Some("ab".to_string())), "ab_tn.png");
    assert_eq!(note2self::thumbnail_name(&Some("a.png".to_string())), "a_tn.png");
    assert_eq!(note2self::thumbnail_name(&None), "");
}

#[test]
fn error_messages() {
    assert_eq!(FetchError::NetworkError.message(), "network error");
    assert_eq!(FetchError::DecodeError.message(), "malformed response");
}

#[test]
fn coordinator_issue_and_accept() {
    let mut c = FetchCoordinator::new();
    assert!(c.can_issue());
    let a = c.issue(ResourceKind::Entries);
    let t = c.issue(ResourceKind::Tags);
    let b = c.issue(ResourceKind::Entries);
    assert_eq!(a.generation, 1);
    assert_eq!(b.generation, 2);
    assert!(!c.accept(a));
    assert!(c.accept(b));
    assert!(!c.accept(b));
    assert!(c.accept(t));
}

#[test]
fn resource_state_from_result() {
    let ok: ResourceState<Vec<String>> = ResourceState::from_result(Ok(vec!["x".to_string()]));
    assert!(ok.is_loaded());
    let err: ResourceState<Vec<String>> = ResourceState::from_result(Err(FetchError::DecodeError));
    assert!(matches!(err, ResourceState::Failed(FetchError::DecodeError)));
}
