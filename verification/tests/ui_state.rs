use ph::lore::{LoreMailingList, LorePatchMetadata, Timestamp};
use ph::ui::{
    empty_page_step, feed_refresh_failed_plan, lists_loading_screen, lists_refresh_failed_plan,
    page_range, page_render_step, patch_plan, request_after_submit, request_for_event,
    select_list, select_patch, BackAction, EmptyPageRender, NavigationAction, PageMove,
    PageRender, PatchOutcome, RefreshOutcome, Screen, SubmitSource, UiEvent, UiRequest, UiState,
    ViewKind,
};

fn list(name: &str) -> LoreMailingList {
    LoreMailingList { name: name.to_string(), description: String::new(), last_update: Timestamp { secs: 0, nanos: 0 } }
}

fn patch(id: &str, title: &str) -> LorePatchMetadata {
    LorePatchMetadata { message_id: id.to_string(), title: title.to_string(), last_update: Timestamp { secs: 0, nanos: 0 } }
}

#[test]
fn ui_default_state_shows_lists() {
    let s = UiState::default();
    assert_eq!(s.view, ViewKind::Lists);
    assert_eq!(s.list_page, 0);
    assert!(s.feed_list.is_none());
    let m = ph::ui::MockData::default();
    assert!(m.rendered_screens.is_empty());
}

#[test]
fn ui_page_ranges() {
    assert_eq!(page_range(0), (0, 20));
    assert_eq!(page_range(3), (60, 80));
}

#[test]
fn ui_lists_paging_is_probed_before_moving() {
    let mut s = UiState::default();
    assert!(matches!(s.previous_page(), PageMove::Stay));
    match s.next_page() {
        PageMove::ProbeLists { page, start, end } => assert_eq!((page, start, end), (1, 20, 40)),
        _ => panic!(),
    }
    assert_eq!(s.list_page, 0);
    s.commit_lists_page(1);
    assert_eq!(s.list_page, 1);
    match s.previous_page() {
        PageMove::ProbeLists { page, .. } => assert_eq!(page, 0),
        _ => panic!(),
    }
}

#[test]
fn ui_feed_paging_moves_at_once() {
    let mut s = UiState::default();
    s.show_feed(String::from("lkml"), 0);
    s.update_selection(5);
    assert_eq!(s.feed_selected, 5);
    match s.next_page() {
        PageMove::ShowFeedPage { list, start, end } => {
            assert_eq!(list, "lkml");
            assert_eq!((start, end), (20, 40));
        }
        _ => panic!(),
    }
    assert_eq!(s.feed_page, 1);
    assert_eq!(s.feed_selected, 0);
    assert!(matches!(s.previous_page(), PageMove::ShowFeedPage { start: 0, end: 20, .. }));
    assert_eq!(s.feed_page, 0);
    assert!(matches!(s.previous_page(), PageMove::Stay));
}

#[test]
fn ui_back_navigation() {
    let mut s = UiState::default();
    s.show_feed(String::from("netdev"), 2);
    let before = s.clone();
    s.show_patch();
    assert_eq!(s.view, ViewKind::Patch);
    assert!(matches!(s.previous_page(), PageMove::Stay));
    match s.navigate_back() {
        BackAction::RenderFeed { list } => assert_eq!(list, "netdev"),
        _ => panic!(),
    }
    assert_eq!(s.view, before.view);
    assert_eq!(s.feed_page, before.feed_page);
    assert!(matches!(s.navigate_back(), BackAction::RenderLists));
    assert_eq!(s.view, ViewKind::Lists);
    assert!(matches!(s.navigate_back(), BackAction::Quit));
}

#[test]
fn ui_selection_only_in_current_view() {
    let mut s = UiState::default();
    s.update_selection(3);
    assert_eq!(s.list_selected, 3);
    assert_eq!(s.feed_selected, 0);
    s.show_patch();
    s.update_selection(9);
    assert_eq!(s.list_selected, 3);
    assert_eq!(s.feed_selected, 0);
}

#[test]
fn ui_submit_selects_from_page() {
    let mut s = UiState::default();
    s.show_lists(1);
    s.update_selection(2);
    match s.submit_source() {
        SubmitSource::Lists { start, end, selected } => assert_eq!((start, end, selected), (20, 40, 2)),
        _ => panic!(),
    }
    assert_eq!(s.lists_range(), (20, 40));
    let items = vec![list("a"), list("b"), list("c")];
    match select_list(&items, 2) {
        Some(NavigationAction::OpenFeed { list }) => assert_eq!(list, "c"),
        _ => panic!(),
    }
    assert!(select_list(&items, 3).is_none());
    let patches = vec![patch("<1@x>", "first")];
    match select_patch(String::from("l"), &patches, 0) {
        Some(NavigationAction::OpenPatch { list, message_id, title }) => {
            assert_eq!((list.as_str(), message_id.as_str(), title.as_str()), ("l", "<1@x>", "first"))
        }
        _ => panic!(),
    }
    assert!(select_patch(String::from("l"), &patches, 1).is_none());
    s.show_patch();
    assert!(matches!(s.submit_source(), SubmitSource::Nothing));
}

#[test]
fn ui_render_decisions() {
    assert_eq!(page_render_step(0), PageRender::CheckTotal);
    assert_eq!(page_render_step(4), PageRender::Show);
    assert_eq!(empty_page_step(0), EmptyPageRender::Refresh);
    assert_eq!(empty_page_step(7), EmptyPageRender::ShowEmpty);
    let s = UiState::default();
    let plan = s.lists_page_plan(vec![]);
    assert!(!plan.report_show_error);
    let plan = s.lists_page_plan(vec![list("a")]);
    assert!(plan.report_show_error);
    let plan = s.feed_refreshed_plan(String::from("l"), vec![patch("1", "t")]);
    assert!(plan.persist_feed);
    let plan = s.feed_refreshed_plan(String::from("l"), vec![]);
    assert!(!plan.persist_feed);
    match lists_refresh_failed_plan(RefreshOutcome::TimedOut).screen {
        Screen::Error(m) => assert_eq!(m, "Mailing lists loading timed out"),
        _ => panic!(),
    }
    match feed_refresh_failed_plan(RefreshOutcome::Failed).screen {
        Screen::Error(m) => assert_eq!(m, "Failed to load feed data"),
        _ => panic!(),
    }
    match lists_loading_screen() {
        Screen::Loading(m) => assert_eq!(m, "Loading mailing lists..."),
        _ => panic!(),
    }
}

#[test]
fn ui_patch_plans() {
    let p = patch_plan(String::from("t"), PatchOutcome::Rendered(String::from("diff")));
    assert!(!p.invalidate_feed);
    assert!(matches!(p.screen, Screen::Patch { .. }));
    let p = patch_plan(String::from("t"), PatchOutcome::Rendered(String::new()));
    assert!(p.invalidate_feed);
    let p = patch_plan(String::from("t"), PatchOutcome::FetchFailed);
    assert!(p.invalidate_feed);
    match p.screen {
        Screen::Error(m) => assert_eq!(m, "Failed to load patch"),
        _ => panic!(),
    }
    match patch_plan(String::from("t"), PatchOutcome::RenderFailed).screen {
        Screen::Error(m) => assert_eq!(m, "Failed to render patch"),
        _ => panic!(),
    }
}

#[test]
fn ui_events_become_requests() {
    assert!(matches!(request_for_event(UiEvent::SelectionChange(4)), UiRequest::UpdateSelection { index: 4 }));
    assert!(matches!(request_for_event(UiEvent::Left), UiRequest::PreviousPage));
    assert!(matches!(request_for_event(UiEvent::Right), UiRequest::NextPage));
    assert!(matches!(request_for_event(UiEvent::Esc), UiRequest::NavigateBack));
    assert!(matches!(request_for_event(UiEvent::SelectionSubmit(1)), UiRequest::SubmitSelection));
    match request_after_submit(NavigationAction::OpenFeed { list: String::from("x") }) {
        Some(UiRequest::ShowFeed { list, page }) => assert_eq!((list.as_str(), page), ("x", 0)),
        _ => panic!(),
    }
    assert!(request_after_submit(NavigationAction::Quit).is_none());
}

#[test]
fn ui_lists_move_only_onto_pages_with_records() {
    let mut s = UiState::default();
    s.update_selection(4);
    s.lists_next_page_step(0);
    assert_eq!((s.list_page, s.list_selected), (0, 4));
    s.lists_next_page_step(20);
    assert_eq!((s.list_page, s.list_selected), (1, 0));
    s.update_selection(2);
    s.lists_previous_page_step(0);
    assert_eq!((s.list_page, s.list_selected), (1, 2));
    s.lists_previous_page_step(20);
    assert_eq!((s.list_page, s.list_selected), (0, 0));
    s.lists_previous_page_step(20);
    assert_eq!(s.list_page, 0);
}
