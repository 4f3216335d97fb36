//! The navigation state of the terminal UI and the decisions it takes.
//!
//! The UI shows one of three views: the mailing lists, the patch feed of one
//! list, or one patch. Lists and feeds are paged by [`PAGE_SIZE`] records.
//! Every operation here changes the state and says what outside work comes
//! next (a cache query, a render, quitting); the actor that drives the
//! terminal does that work and feeds the results back.
use vstd::prelude::*;
use vstd::string::*;

use crate::lore::{LoreMailingList, LorePatchMetadata};

verus! {

/// Number of records shown on one page of the lists and feed views.
pub const PAGE_SIZE: usize = 20;

/// Different view types in the TUI
#[derive(Debug, Clone, Copy, PartialEq, Eq, Structural)]
pub enum ViewKind {
    /// Mailing lists view
    Lists,
    /// Patch feed view for a specific mailing list
    Feed,
    /// Individual patch content view
    Patch,
}

/// UI state managed by the UI actor
#[derive(Debug, Clone)]
pub struct UiState {
    /// Current view being displayed
    pub view: ViewKind,
    /// Current page in lists view
    pub list_page: usize,
    /// Currently selected item in lists view
    pub list_selected: usize,
    /// Current mailing list name (when in Feed view)
    pub feed_list: Option<String>,
    /// Current page in feed view
    pub feed_page: usize,
    /// Currently selected item in feed view
    pub feed_selected: usize,
}

impl Default for UiState {
    /// The lists view at its first page, nothing selected further down, no feed.
    fn default() -> (r: UiState)
        ensures
            r.view == ViewKind::Lists,
            r.list_page == 0,
            r.list_selected == 0,
            r.feed_list is None,
            r.feed_page == 0,
            r.feed_selected == 0,
    {
        UiState {
            view: ViewKind::Lists,
            list_page: 0,
            list_selected: 0,
            feed_list: None,
            feed_page: 0,
            feed_selected: 0,
        }
    }
}

/// Mock data for testing the UI actor
#[derive(Debug, Clone)]
pub struct MockData {
    /// Current UI state
    pub state: UiState,
    /// Track screens that have been rendered (for testing)
    pub rendered_screens: Vec<String>,
    /// Track navigation actions (for testing)
    pub navigation_actions: Vec<String>,
}

impl Default for MockData {
    /// The default UI state and nothing tracked yet.
    fn default() -> (r: MockData)
        ensures
            r.state.view == ViewKind::Lists,
            r.state.list_page == 0,
            r.state.list_selected == 0,
            r.state.feed_list is None,
            r.state.feed_page == 0,
            r.state.feed_selected == 0,
            r.rendered_screens@.len() == 0,
            r.navigation_actions@.len() == 0,
    {
        MockData { state: UiState::default(), rendered_screens: Vec::new(), navigation_actions: Vec::new() }
    }
}

/// Actions that result from UI navigation
#[derive(Debug, Clone)]
pub enum NavigationAction {
    /// Navigate to feed for a specific list
    OpenFeed { list: String },
    /// Navigate to patch with specific details
    OpenPatch { list: String, message_id: String, title: String },
    /// Quit the application
    Quit,
}

/// The largest page whose records can be addressed: the end of its index
/// range must fit in a `usize`.
pub open spec fn max_page() -> int {
    (usize::MAX - 20) / 20
}

/// The largest page whose records can be addressed.
pub fn max_page_index() -> (r: usize)
    ensures
        r == max_page(),
{
    (usize::MAX - 20) / 20
}

/// The index range of the records on a page: from `page * 20` to `page * 20 + 20`.
pub open spec fn page_bounds(page: int) -> (int, int) {
    (page * 20, page * 20 + 20)
}

/// The index range of the records on a page.
pub fn page_range(page: usize) -> (r: (usize, usize))
    requires
        page <= max_page(),
    ensures
        r.0 == page_bounds(page as int).0,
        r.1 == page_bounds(page as int).1,
{
    assert(page * 20 + 20 <= usize::MAX) by (nonlinear_arith)
        requires
            page <= (usize::MAX - 20) / 20,
    ;
    let start = page * PAGE_SIZE;
    (start, start + PAGE_SIZE)
}

/// What a page move needs done next.
#[derive(Debug)]
pub enum PageMove {
    /// Nothing: the page does not change
    Stay,
    /// The records of the lists page `page` (range `start..end`) must be
    /// fetched; the move happens, through [`UiState::commit_lists_page`],
    /// only if there is at least one
    ProbeLists { page: usize, start: usize, end: usize },
    /// The feed of `list` moved to the page with range `start..end`; it must
    /// be rendered, from the cache if the range is available there
    ShowFeedPage { list: String, start: usize, end: usize },
}

/// What going back needs done next.
#[derive(Debug)]
pub enum BackAction {
    /// Going back from the lists quits the terminal
    Quit,
    /// The lists view must be rendered
    RenderLists,
    /// The feed of the list must be rendered
    RenderFeed { list: String },
    /// Nothing more
    Nothing,
}

/// Which records a submission selects from.
#[derive(Debug)]
pub enum SubmitSource {
    /// Nothing can be submitted in the current view
    Nothing,
    /// The record at `selected` among the lists in `start..end`
    Lists { start: usize, end: usize, selected: usize },
    /// The record at `selected` among the patches of `list` in `start..end`
    Feed { list: String, start: usize, end: usize, selected: usize },
}

/// Whether the pages of a state can all be addressed.
pub open spec fn pages_fit(s: UiState) -> bool {
    s.list_page <= max_page() && s.feed_page <= max_page()
}

/// The state after `update_selection`: the selection of the current view is
/// `index`; the patch view has none.
pub open spec fn selected_in_view(before: UiState, index: usize, after: UiState) -> bool {
    &&& after.view == before.view
    &&& after.list_page == before.list_page
    &&& after.feed_list == before.feed_list
    &&& after.feed_page == before.feed_page
    &&& after.list_selected == if before.view == ViewKind::Lists {
        index
    } else {
        before.list_selected
    }
    &&& after.feed_selected == if before.view == ViewKind::Feed {
        index
    } else {
        before.feed_selected
    }
}

impl UiState {
    /// Shows the mailing lists view at `page` with the first item selected.
    pub fn show_lists(&mut self, page: usize)
        requires
            page <= max_page(),
        ensures
            *final(self) == (UiState {
                view: ViewKind::Lists,
                list_page: page,
                list_selected: 0,
                ..*old(self)
            }),
    {
        self.view = ViewKind::Lists;
        self.list_page = page;
        self.list_selected = 0;
    }

    /// Shows the feed of `list` at `page` with the first item selected.
    pub fn show_feed(&mut self, list: String, page: usize)
        requires
            page <= max_page(),
        ensures
            *final(self) == (UiState {
                view: ViewKind::Feed,
                feed_list: Some(list),
                feed_page: page,
                feed_selected: 0,
                ..*old(self)
            }),
    {
        self.view = ViewKind::Feed;
        self.feed_list = Some(list);
        self.feed_page = page;
        self.feed_selected = 0;
    }

    /// Shows a patch; the lists and feed positions are kept for going back.
    pub fn show_patch(&mut self)
        ensures
            *final(self) == (UiState { view: ViewKind::Patch, ..*old(self) }),
    {
        self.view = ViewKind::Patch;
    }

    /// Selects `index` in the current view; the patch view has no selection.
    pub fn update_selection(&mut self, index: usize)
        ensures
            selected_in_view(*old(self), index, *final(self)),
    {
        match self.view {
            ViewKind::Lists => self.list_selected = index,
            ViewKind::Feed => self.feed_selected = index,
            ViewKind::Patch => {},
        }
    }

    /// Moves to the previous page. In the lists view the move must first be
    /// confirmed by a non-empty previous page; in the feed view it happens at
    /// once; at the first page, and in the patch view, nothing changes.
    pub fn previous_page(&mut self) -> (r: PageMove)
        requires
            pages_fit(*old(self)),
        ensures
            pages_fit(*final(self)),
            match old(self).view {
                ViewKind::Lists => {
                    &&& *final(self) == *old(self)
                    &&& if old(self).list_page == 0 {
                        r is Stay
                    } else {
                        r matches PageMove::ProbeLists { page, start, end } && page
                            == old(self).list_page - 1 && start == page_bounds(page as int).0
                            && end == page_bounds(page as int).1
                    }
                },
                ViewKind::Feed => if old(self).feed_page == 0 || old(self).feed_list is None {
                    r is Stay && *final(self) == *old(self)
                } else {
                    &&& *final(self) == (UiState {
                        feed_page: (old(self).feed_page - 1) as usize,
                        feed_selected: 0,
                        ..*old(self)
                    })
                    &&& r matches PageMove::ShowFeedPage { list, start, end } && Some(list)
                        == old(self).feed_list && start == page_bounds(
                        final(self).feed_page as int,
                    ).0 && end == page_bounds(final(self).feed_page as int).1
                },
                ViewKind::Patch => r is Stay && *final(self) == *old(self),
            },
    {
        match self.view {
            ViewKind::Lists => {
                if self.list_page == 0 {
                    return PageMove::Stay;
                }
                let page = self.list_page - 1;
                let (start, end) = page_range(page);
                PageMove::ProbeLists { page, start, end }
            },
            ViewKind::Feed => {
                if self.feed_page == 0 {
                    return PageMove::Stay;
                }
                match &self.feed_list {
                    Some(list) => {
                        let list = list.clone();
                        let page = self.feed_page - 1;
                        self.feed_page = page;
                        self.feed_selected = 0;
                        let (start, end) = page_range(page);
                        PageMove::ShowFeedPage { list, start, end }
                    },
                    None => PageMove::Stay,
                }
            },
            ViewKind::Patch => PageMove::Stay,
        }
    }

    /// Moves to the next page. In the lists view the move must first be
    /// confirmed by a non-empty next page; in the feed view it happens at
    /// once; in the patch view nothing changes.
    pub fn next_page(&mut self) -> (r: PageMove)
        requires
            pages_fit(*old(self)),
            old(self).view == ViewKind::Lists ==> old(self).list_page < max_page(),
            old(self).view == ViewKind::Feed ==> old(self).feed_page < max_page(),
        ensures
            pages_fit(*final(self)),
            match old(self).view {
                ViewKind::Lists => {
                    &&& *final(self) == *old(self)
                    &&& r matches PageMove::ProbeLists { page, start, end } && page
                        == old(self).list_page + 1 && start == page_bounds(page as int).0 && end
                        == page_bounds(page as int).1
                },
                ViewKind::Feed => if old(self).feed_list is None {
                    r is Stay && *final(self) == *old(self)
                } else {
                    &&& *final(self) == (UiState {
                        feed_page: (old(self).feed_page + 1) as usize,
                        feed_selected: 0,
                        ..*old(self)
                    })
                    &&& r matches PageMove::ShowFeedPage { list, start, end } && Some(list)
                        == old(self).feed_list && start == page_bounds(
                        final(self).feed_page as int,
                    ).0 && end == page_bounds(final(self).feed_page as int).1
                },
                ViewKind::Patch => r is Stay && *final(self) == *old(self),
            },
    {
        match self.view {
            ViewKind::Lists => {
                let page = self.list_page + 1;
                let (start, end) = page_range(page);
                PageMove::ProbeLists { page, start, end }
            },
            ViewKind::Feed => {
                match &self.feed_list {
                    Some(list) => {
                        let list = list.clone();
                        let page = self.feed_page + 1;
                        self.feed_page = page;
                        self.feed_selected = 0;
                        let (start, end) = page_range(page);
                        PageMove::ShowFeedPage { list, start, end }
                    },
                    None => PageMove::Stay,
                }
            },
            ViewKind::Patch => PageMove::Stay,
        }
    }

    /// Completes a lists page move whose page turned out to hold records.
    pub fn commit_lists_page(&mut self, page: usize)
        requires
            page <= max_page(),
        ensures
            *final(self) == (UiState { list_page: page, list_selected: 0, ..*old(self) }),
    {
        self.list_page = page;
        self.list_selected = 0;
    }

    /// Completes a move to the next lists page once the number of records on
    /// that page is known: the move happens, with the first record selected,
    /// only onto a page that holds records; otherwise nothing changes.
    pub fn lists_next_page_step(&mut self, next_slice_len: usize)
        requires
            old(self).view == ViewKind::Lists,
            old(self).list_page < max_page(),
        ensures
            next_slice_len > 0 ==> *final(self) == (UiState {
                list_page: (old(self).list_page + 1) as usize,
                list_selected: 0,
                ..*old(self)
            }),
            next_slice_len == 0 ==> *final(self) == *old(self),
    {
        if next_slice_len > 0 {
            self.commit_lists_page(self.list_page + 1);
        }
    }

    /// Completes a move to the previous lists page once the number of records
    /// on that page is known: the move happens, with the first record
    /// selected, only from a page after the first and onto a page that holds
    /// records; otherwise nothing changes.
    pub fn lists_previous_page_step(&mut self, previous_slice_len: usize)
        requires
            old(self).view == ViewKind::Lists,
            pages_fit(*old(self)),
        ensures
            old(self).list_page > 0 && previous_slice_len > 0 ==> *final(self) == (UiState {
                list_page: (old(self).list_page - 1) as usize,
                list_selected: 0,
                ..*old(self)
            }),
            !(old(self).list_page > 0 && previous_slice_len > 0) ==> *final(self) == *old(self),
    {
        if self.list_page > 0 && previous_slice_len > 0 {
            self.commit_lists_page(self.list_page - 1);
        }
    }

    /// Goes back: from the lists the terminal quits, from a feed to the
    /// lists, from a patch to its feed.
    pub fn navigate_back(&mut self) -> (r: BackAction)
        ensures
            match old(self).view {
                ViewKind::Lists => r is Quit && *final(self) == *old(self),
                ViewKind::Feed => r is RenderLists && *final(self) == (UiState {
                    view: ViewKind::Lists,
                    ..*old(self)
                }),
                ViewKind::Patch => {
                    &&& *final(self) == (UiState { view: ViewKind::Feed, ..*old(self) })
                    &&& match old(self).feed_list {
                        Some(list) => r matches BackAction::RenderFeed { list: l } && l == list,
                        None => r is Nothing,
                    }
                },
            },
    {
        match self.view {
            ViewKind::Lists => BackAction::Quit,
            ViewKind::Feed => {
                self.view = ViewKind::Lists;
                BackAction::RenderLists
            },
            ViewKind::Patch => {
                self.view = ViewKind::Feed;
                match &self.feed_list {
                    Some(list) => BackAction::RenderFeed { list: list.clone() },
                    None => BackAction::Nothing,
                }
            },
        }
    }

    /// The records among which a submission selects: the current page of
    /// the current view, and the selected index on it.
    pub fn submit_source(&self) -> (r: SubmitSource)
        requires
            pages_fit(*self),
        ensures
            match self.view {
                ViewKind::Lists => r matches SubmitSource::Lists { start, end, selected } && start
                    == page_bounds(self.list_page as int).0 && end == page_bounds(
                    self.list_page as int,
                ).1 && selected == self.list_selected,
                ViewKind::Feed => match self.feed_list {
                    Some(list) => r matches SubmitSource::Feed { list: l, start, end, selected }
                        && l == list && start == page_bounds(self.feed_page as int).0 && end
                        == page_bounds(self.feed_page as int).1 && selected == self.feed_selected,
                    None => r is Nothing,
                },
                ViewKind::Patch => r is Nothing,
            },
    {
        match self.view {
            ViewKind::Lists => {
                let (start, end) = page_range(self.list_page);
                SubmitSource::Lists { start, end, selected: self.list_selected }
            },
            ViewKind::Feed => match &self.feed_list {
                Some(list) => {
                    let (start, end) = page_range(self.feed_page);
                    SubmitSource::Feed {
                        list: list.clone(),
                        start,
                        end,
                        selected: self.feed_selected,
                    }
                },
                None => SubmitSource::Nothing,
            },
            ViewKind::Patch => SubmitSource::Nothing,
        }
    }

    /// The index range of the current lists page.
    pub fn lists_range(&self) -> (r: (usize, usize))
        requires
            pages_fit(*self),
        ensures
            r.0 == page_bounds(self.list_page as int).0,
            r.1 == page_bounds(self.list_page as int).1,
    {
        page_range(self.list_page)
    }

    /// The index range of the current feed page.
    pub fn feed_range(&self) -> (r: (usize, usize))
        requires
            pages_fit(*self),
        ensures
            r.0 == page_bounds(self.feed_page as int).0,
            r.1 == page_bounds(self.feed_page as int).1,
    {
        page_range(self.feed_page)
    }
}

/// The list opened by submitting the `selected` record of a lists page:
/// its name, or nothing when the page has no record there.
pub fn select_list(items: &Vec<LoreMailingList>, selected: usize) -> (r: Option<NavigationAction>)
    ensures
        selected < items@.len() ==> (r matches Some(NavigationAction::OpenFeed { list })
            && list == items@[selected as int].name),
        selected >= items@.len() ==> r is None,
{
    if selected < items.len() {
        Some(NavigationAction::OpenFeed { list: items[selected].name.clone() })
    } else {
        None
    }
}

/// The patch opened by submitting the `selected` record of a page of the
/// feed of `list`, or nothing when the page has no record there.
pub fn select_patch(list: String, items: &Vec<LorePatchMetadata>, selected: usize) -> (r: Option<
    NavigationAction,
>)
    ensures
        selected < items@.len() ==> (r matches Some(
            NavigationAction::OpenPatch { list: l, message_id, title },
        ) && l == list && message_id == items@[selected as int].message_id && title
            == items@[selected as int].title),
        selected >= items@.len() ==> r is None,
{
    if selected < items.len() {
        Some(
            NavigationAction::OpenPatch {
                list,
                message_id: items[selected].message_id.clone(),
                title: items[selected].title.clone(),
            },
        )
    } else {
        None
    }
}

/// What the terminal is asked to show.
#[derive(Debug)]
pub enum Screen {
    /// A loading message
    Loading(String),
    /// A page of mailing lists
    Lists { items: Vec<LoreMailingList>, page: usize, selected: usize },
    /// A page of the feed of a list
    Feed { list: String, items: Vec<LorePatchMetadata>, page: usize, selected: usize },
    /// The rendered content of a patch
    Patch { title: String, content: String },
    /// An error message
    Error(String),
}

/// How a refresh of a cache ended.
#[derive(Debug, Clone, Copy, PartialEq, Eq, Structural)]
pub enum RefreshOutcome {
    /// The refresh completed
    Done,
    /// The refresh reported an error
    Failed,
    /// The refresh did not complete within its time limit
    TimedOut,
}

/// How long, in seconds, a render waits for a cache refresh.
pub const REFRESH_TIMEOUT_SECS: u64 = 30;

/// What a render shows, and what else it does around it.
#[derive(Debug)]
pub struct RenderPlan {
    /// The screen to show
    pub screen: Screen,
    /// Whether a failure to show the screen is the render's error (else it is ignored)
    pub report_show_error: bool,
    /// Whether the feed cache of the list is to be persisted after showing
    pub persist_feed: bool,
}

/// What a render of a page does once the records of the page are known.
#[derive(Debug, Clone, Copy, PartialEq, Eq, Structural)]
pub enum PageRender {
    /// Show the records
    Show,
    /// The page is empty: look at how many records the cache holds in all
    CheckTotal,
}

/// What a render of an empty page does once the size of the cache is known.
#[derive(Debug, Clone, Copy, PartialEq, Eq, Structural)]
pub enum EmptyPageRender {
    /// The cache has records, just not on this page: show the empty page
    ShowEmpty,
    /// The cache is empty: refresh it (within [`REFRESH_TIMEOUT_SECS`]) and fetch the page again
    Refresh,
}

/// The first decision of a render: show a page that has records, else look further.
pub fn page_render_step(items_len: usize) -> (r: PageRender)
    ensures
        r == (if items_len == 0 {
            PageRender::CheckTotal
        } else {
            PageRender::Show
        }),
{
    if items_len == 0 {
        PageRender::CheckTotal
    } else {
        PageRender::Show
    }
}

/// The decision for an empty page: refresh only a cache that holds nothing.
pub fn empty_page_step(total: usize) -> (r: EmptyPageRender)
    ensures
        r == (if total == 0 {
            EmptyPageRender::Refresh
        } else {
            EmptyPageRender::ShowEmpty
        }),
{
    if total == 0 {
        EmptyPageRender::Refresh
    } else {
        EmptyPageRender::ShowEmpty
    }
}

/// The message shown when the mailing lists could not be refreshed.
pub open spec fn lists_refresh_message(outcome: RefreshOutcome) -> Seq<char> {
    match outcome {
        RefreshOutcome::TimedOut => "Mailing lists loading timed out"@,
        _ => "Failed to load mailing lists"@,
    }
}

/// The message shown when a feed could not be refreshed.
pub open spec fn feed_refresh_message(outcome: RefreshOutcome) -> Seq<char> {
    match outcome {
        RefreshOutcome::TimedOut => "Feed loading timed out"@,
        _ => "Failed to load feed data"@,
    }
}

impl UiState {
    /// The lists page to show with the records fetched for it. A failure to
    /// show it is reported only when the page has records.
    pub fn lists_page_plan(&self, items: Vec<LoreMailingList>) -> (r: RenderPlan)
        ensures
            r.screen == (Screen::Lists {
                items,
                page: self.list_page,
                selected: self.list_selected,
            }),
            r.report_show_error == (items@.len() > 0),
            !r.persist_feed,
    {
        let report = items.len() > 0;
        RenderPlan {
            screen: Screen::Lists { items, page: self.list_page, selected: self.list_selected },
            report_show_error: report,
            persist_feed: false,
        }
    }

    /// The lists page to show after a completed refresh; failures to show it
    /// are ignored.
    pub fn lists_refreshed_plan(&self, items: Vec<LoreMailingList>) -> (r: RenderPlan)
        ensures
            r.screen == (Screen::Lists {
                items,
                page: self.list_page,
                selected: self.list_selected,
            }),
            !r.report_show_error,
            !r.persist_feed,
    {
        RenderPlan {
            screen: Screen::Lists { items, page: self.list_page, selected: self.list_selected },
            report_show_error: false,
            persist_feed: false,
        }
    }

    /// The feed page to show with the records fetched for it; a failure to
    /// show it is reported.
    pub fn feed_page_plan(&self, list: String, items: Vec<LorePatchMetadata>) -> (r: RenderPlan)
        ensures
            r.screen == (Screen::Feed {
                list,
                items,
                page: self.feed_page,
                selected: self.feed_selected,
            }),
            r.report_show_error,
            !r.persist_feed,
    {
        RenderPlan {
            screen: Screen::Feed { list, items, page: self.feed_page, selected: self.feed_selected },
            report_show_error: true,
            persist_feed: false,
        }
    }

    /// The feed page to show after a completed refresh; the cache is
    /// persisted when the refresh brought records for the page.
    pub fn feed_refreshed_plan(&self, list: String, items: Vec<LorePatchMetadata>) -> (r: RenderPlan)
        ensures
            r.screen == (Screen::Feed {
                list,
                items,
                page: self.feed_page,
                selected: self.feed_selected,
            }),
            r.report_show_error,
            r.persist_feed == (items@.len() > 0),
    {
        let persist = items.len() > 0;
        RenderPlan {
            screen: Screen::Feed { list, items, page: self.feed_page, selected: self.feed_selected },
            report_show_error: true,
            persist_feed: persist,
        }
    }
}

/// What the lists view shows when the refresh of the empty cache did not
/// complete; failures to show it are ignored.
pub fn lists_refresh_failed_plan(outcome: RefreshOutcome) -> (r: RenderPlan)
    requires
        outcome != RefreshOutcome::Done,
    ensures
        r.screen matches Screen::Error(m) && m@ == lists_refresh_message(outcome),
        !r.report_show_error,
        !r.persist_feed,
{
    let message = match outcome {
        RefreshOutcome::TimedOut => String::from_str("Mailing lists loading timed out"),
        _ => String::from_str("Failed to load mailing lists"),
    };
    RenderPlan { screen: Screen::Error(message), report_show_error: false, persist_feed: false }
}

/// What the feed view shows when the refresh of the empty cache did not
/// complete; a failure to show it is reported.
pub fn feed_refresh_failed_plan(outcome: RefreshOutcome) -> (r: RenderPlan)
    requires
        outcome != RefreshOutcome::Done,
    ensures
        r.screen matches Screen::Error(m) && m@ == feed_refresh_message(outcome),
        r.report_show_error,
        !r.persist_feed,
{
    let message = match outcome {
        RefreshOutcome::TimedOut => String::from_str("Feed loading timed out"),
        _ => String::from_str("Failed to load feed data"),
    };
    RenderPlan { screen: Screen::Error(message), report_show_error: true, persist_feed: false }
}

/// How fetching and rendering a patch went.
#[derive(Debug)]
pub enum PatchOutcome {
    /// The patch could not be fetched
    FetchFailed,
    /// The patch was fetched but could not be rendered
    RenderFailed,
    /// The patch was rendered to this content
    Rendered(String),
}

/// What the patch view shows, and whether the feed cache of the list is to
/// be invalidated so that the next attempt refetches.
#[derive(Debug)]
pub struct PatchPlan {
    /// The screen to show
    pub screen: Screen,
    /// Whether the feed cache of the list is invalidated
    pub invalidate_feed: bool,
}

/// The patch view after fetching and rendering: the rendered content under
/// its title (invalidating the feed cache when the content is empty), or an
/// error message (always invalidating the feed cache).
pub fn patch_plan(title: String, outcome: PatchOutcome) -> (r: PatchPlan)
    ensures
        match outcome {
            PatchOutcome::Rendered(content) => r.screen == (Screen::Patch { title, content })
                && r.invalidate_feed == (content@.len() == 0),
            PatchOutcome::RenderFailed => (r.screen matches Screen::Error(m) && m@
                == "Failed to render patch"@) && r.invalidate_feed,
            PatchOutcome::FetchFailed => (r.screen matches Screen::Error(m) && m@
                == "Failed to load patch"@) && r.invalidate_feed,
        },
{
    match outcome {
        PatchOutcome::Rendered(content) => {
            let empty = content.as_str().is_empty();
            PatchPlan { screen: Screen::Patch { title, content }, invalidate_feed: empty }
        },
        PatchOutcome::RenderFailed => PatchPlan {
            screen: Screen::Error(String::from_str("Failed to render patch")),
            invalidate_feed: true,
        },
        PatchOutcome::FetchFailed => PatchPlan {
            screen: Screen::Error(String::from_str("Failed to load patch")),
            invalidate_feed: true,
        },
    }
}

/// The loading message shown while the mailing lists are fetched.
pub fn lists_loading_screen() -> (r: Screen)
    ensures
        r matches Screen::Loading(m) && m@ == "Loading mailing lists..."@,
{
    Screen::Loading(String::from_str("Loading mailing lists..."))
}

/// The loading message shown while a feed is fetched.
pub fn feed_loading_screen() -> (r: Screen)
    ensures
        r matches Screen::Loading(m) && m@ == "Loading feed..."@,
{
    Screen::Loading(String::from_str("Loading feed..."))
}

/// The loading message shown while a feed page missing from the cache is fetched.
pub fn page_loading_screen() -> (r: Screen)
    ensures
        r matches Screen::Loading(m) && m@ == "Loading page..."@,
{
    Screen::Loading(String::from_str("Loading page..."))
}

/// The loading message shown while a patch is fetched and rendered.
pub fn patch_loading_screen() -> (r: Screen)
    ensures
        r matches Screen::Loading(m) && m@ == "Loading patch..."@,
{
    Screen::Loading(String::from_str("Loading patch..."))
}

/// An event read from the terminal.
#[derive(Debug, Clone, Copy, PartialEq, Eq, Structural)]
pub enum UiEvent {
    /// The selection moved to an index
    SelectionChange(usize),
    /// The left key
    Left,
    /// The right key
    Right,
    /// The selection at an index was submitted
    SelectionSubmit(usize),
    /// The escape key
    Esc,
}

/// A request to the UI.
#[derive(Debug)]
pub enum UiRequest {
    /// Show the lists view at a page
    ShowLists { page: usize },
    /// Show the feed of a list at a page
    ShowFeed { list: String, page: usize },
    /// Show a patch
    ShowPatch { list: String, message_id: String, title: String },
    /// Select an index in the current view
    UpdateSelection { index: usize },
    /// Go to the previous page
    PreviousPage,
    /// Go to the next page
    NextPage,
    /// Go back to the previous view
    NavigateBack,
    /// Submit the current selection
    SubmitSelection,
}

/// The request that a terminal event makes of the UI: a selection change
/// selects, left and right turn pages, a submission submits, escape goes back.
pub fn request_for_event(event: UiEvent) -> (r: UiRequest)
    ensures
        match event {
            UiEvent::SelectionChange(index) => r matches UiRequest::UpdateSelection { index: i }
                && i == index,
            UiEvent::Left => r is PreviousPage,
            UiEvent::Right => r is NextPage,
            UiEvent::SelectionSubmit(_) => r is SubmitSelection,
            UiEvent::Esc => r is NavigateBack,
        },
{
    match event {
        UiEvent::SelectionChange(index) => UiRequest::UpdateSelection { index },
        UiEvent::Left => UiRequest::PreviousPage,
        UiEvent::Right => UiRequest::NextPage,
        UiEvent::SelectionSubmit(_) => UiRequest::SubmitSelection,
        UiEvent::Esc => UiRequest::NavigateBack,
    }
}

/// The request that follows a submission: opening a feed shows its first
/// page, opening a patch shows it, quitting is left to the terminal.
pub fn request_after_submit(action: NavigationAction) -> (r: Option<UiRequest>)
    ensures
        match action {
            NavigationAction::OpenFeed { list } => r matches Some(
                UiRequest::ShowFeed { list: l, page },
            ) && l == list && page == 0,
            NavigationAction::OpenPatch { list, message_id, title } => r matches Some(
                UiRequest::ShowPatch { list: l, message_id: m, title: t },
            ) && l == list && m == message_id && t == title,
            NavigationAction::Quit => r is None,
        },
{
    match action {
        NavigationAction::OpenFeed { list } => Some(UiRequest::ShowFeed { list, page: 0 }),
        NavigationAction::OpenPatch { list, message_id, title } => Some(
            UiRequest::ShowPatch { list, message_id, title },
        ),
        NavigationAction::Quit => None,
    }
}

/// Law: going back from a patch undoes opening it from a feed: the state is
/// again the one before the patch was shown.
pub proof fn law_back_undoes_show_patch(s: UiState)
    requires
        s.view == ViewKind::Feed,
    ensures
        (UiState { view: ViewKind::Feed, ..(UiState { view: ViewKind::Patch, ..s }) }) == s,
{
}

/// Law: in the feed view, turning to the next page and back returns to the
/// page one started from, with the first record selected.
pub proof fn law_previous_undoes_next_feed(s: UiState)
    requires
        s.view == ViewKind::Feed,
        s.feed_list is Some,
        s.feed_page < max_page(),
    ensures
        ({
            let after_next = UiState {
                feed_page: (s.feed_page + 1) as usize,
                feed_selected: 0,
                ..s
            };
            let after_previous = UiState {
                feed_page: (after_next.feed_page - 1) as usize,
                feed_selected: 0,
                ..after_next
            };
            after_previous == (UiState { feed_selected: 0, ..s })
        }),
{
}

/// Law: in the lists view, moving to the next page and back (both pages
/// holding records) returns to the page one started from, with the first
/// record selected.
pub proof fn law_previous_undoes_next_lists(s: UiState, mid: UiState, after: UiState)
    requires
        s.view == ViewKind::Lists,
        s.list_page < max_page(),
        mid == (UiState { list_page: (s.list_page + 1) as usize, list_selected: 0, ..s }),
        after == (UiState { list_page: (mid.list_page - 1) as usize, list_selected: 0, ..mid }),
    ensures
        after == (UiState { list_selected: 0, ..s }),
        after.view == ViewKind::Lists,
        after.list_page == s.list_page,
{
}

/// Law: the largest addressable page is the last one whose index range
/// still ends within a `usize`: its range fits, the next page's does not.
pub proof fn law_max_page_is_largest_addressable()
    ensures
        max_page() >= 0,
        page_bounds(max_page()).1 <= usize::MAX,
        page_bounds(max_page() + 1).1 > usize::MAX,
{
}

/// Law: a selection change touches only the selection of the current view,
/// and selecting what is already selected changes nothing.
pub proof fn law_selection_is_local(s: UiState, index: usize, after: UiState)
    requires
        selected_in_view(s, index, after),
    ensures
        after.view == s.view,
        after.list_page == s.list_page,
        after.feed_page == s.feed_page,
        after.feed_list == s.feed_list,
        s.view == ViewKind::Patch ==> after == s,
        s.view == ViewKind::Lists && index == s.list_selected ==> after == s,
        s.view == ViewKind::Feed && index == s.feed_selected ==> after == s,
{
}

} // verus!
