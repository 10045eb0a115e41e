use vstd::prelude::*;
use vstd::string::*;

use crate::entry::{Card, Entry};
use crate::query::{build, build_tags, entries_url, opt_view, tags_url, SortKey};
use crate::resource::{settled, FetchCoordinator, FetchError, RequestHandle, ResourceKind, ResourceState};

verus! {

/// An intent that the controller reacts to.
#[derive(Debug)]
pub enum Msg {
    /// Load both resources, as at startup.
    RequestLoad,
    /// Sort the entries by the given key; the entries are fetched again.
    SortBy(SortKey),
    /// Show only the entries with the given tag, in date order; the tag joins
    /// the selected tags and the entries are fetched again.
    FilterByTag(String),
    /// Drop the tag filter and the selected tags; the entries are fetched
    /// again.
    ClearTags,
    /// The response to an entries fetch.
    EntriesArrived(RequestHandle, Result<Vec<Entry>, FetchError>),
    /// The response to a tags fetch.
    TagsArrived(RequestHandle, Result<Vec<String>, FetchError>),
    /// A key press, which changes nothing.
    KeyDown,
    /// The pointer over a card, which changes nothing.
    CardMouseOver,
}

/// A fetch for the outer driver to perform; its response comes back as
/// `EntriesArrived` or `TagsArrived` with the same handle.
#[derive(Clone, Debug)]
pub struct FetchCommand {
    pub handle: RequestHandle,
    pub url: String,
}

/// The mathematical value of a `FetchCommand`.
pub struct FetchRequest {
    pub handle: RequestHandle,
    pub url: Seq<char>,
}

impl View for FetchCommand {
    type V = FetchRequest;

    open spec fn view(&self) -> FetchRequest {
        FetchRequest { handle: self.handle, url: self.url@ }
    }
}

/// The mathematical value of the controller's state.
pub struct AppView {
    pub entries: ResourceState<Seq<Entry>>,
    pub tags: ResourceState<Seq<String>>,
    pub sort: Option<SortKey>,
    pub tag_filter: Option<Seq<char>>,
    pub selected_tags: Set<Seq<char>>,
    pub coordinator: FetchCoordinator,
    pub base_url: Seq<char>,
}

impl AppView {
    /// The initial state for the service at `base`.
    pub open spec fn initial(base: Seq<char>) -> AppView {
        AppView {
            entries: ResourceState::Idle,
            tags: ResourceState::Idle,
            sort: None,
            tag_filter: None,
            selected_tags: Set::empty(),
            coordinator: FetchCoordinator {
                entries_issued: 0,
                entries_pending: false,
                tags_issued: 0,
                tags_pending: false,
            },
            base_url: base,
        }
    }

    /// The state after a new entries fetch was issued.
    pub open spec fn reload_entries(self) -> AppView {
        AppView {
            entries: ResourceState::Loading,
            coordinator: self.coordinator.after_issue(ResourceKind::Entries),
            ..self
        }
    }

    /// The state after a new tags fetch was issued.
    pub open spec fn reload_tags(self) -> AppView {
        AppView {
            tags: ResourceState::Loading,
            coordinator: self.coordinator.after_issue(ResourceKind::Tags),
            ..self
        }
    }

    /// The state that `m` leads to.
    pub open spec fn next(self, m: Msg) -> AppView {
        match m {
            Msg::RequestLoad => self.reload_entries().reload_tags(),
            Msg::SortBy(k) => AppView { sort: Some(k), ..self }.reload_entries(),
            Msg::FilterByTag(t) => AppView {
                sort: Some(SortKey::Date),
                tag_filter: Some(t@),
                selected_tags: self.selected_tags.insert(t@),
                ..self
            }.reload_entries(),
            Msg::ClearTags => AppView {
                tag_filter: None,
                selected_tags: Set::empty(),
                ..self
            }.reload_entries(),
            Msg::EntriesArrived(h, res) => if h.kind == ResourceKind::Entries
                && self.coordinator.is_current(h) {
                AppView {
                    entries: settled(res),
                    coordinator: self.coordinator.after_complete(ResourceKind::Entries),
                    ..self
                }
            } else {
                self
            },
            Msg::TagsArrived(h, res) => if h.kind == ResourceKind::Tags
                && self.coordinator.is_current(h) {
                AppView {
                    tags: settled(res),
                    coordinator: self.coordinator.after_complete(ResourceKind::Tags),
                    ..self
                }
            } else {
                self
            },
            Msg::KeyDown | Msg::CardMouseOver => self,
        }
    }

    /// The latest entries fetch of this state.
    pub open spec fn entries_request(self) -> FetchRequest {
        FetchRequest {
            handle: RequestHandle {
                kind: ResourceKind::Entries,
                generation: self.coordinator.entries_issued,
            },
            url: entries_url(self.base_url, self.sort, self.tag_filter),
        }
    }

    /// The latest tags fetch of this state.
    pub open spec fn tags_request(self) -> FetchRequest {
        FetchRequest {
            handle: RequestHandle { kind: ResourceKind::Tags, generation: self.coordinator.tags_issued },
            url: tags_url(self.base_url),
        }
    }

    /// The fetches that `m` issues: both resources on a load, the entries
    /// alone when the sort or the tag filter changes, nothing otherwise.
    pub open spec fn commands(self, m: Msg) -> Seq<FetchRequest> {
        let n = self.next(m);
        match m {
            Msg::RequestLoad => seq![n.entries_request(), n.tags_request()],
            Msg::SortBy(_) | Msg::FilterByTag(_) | Msg::ClearTags => seq![n.entries_request()],
            _ => Seq::empty(),
        }
    }
}

/// Whether `t` is among the texts of `v`.
fn holds_text(v: &Vec<String>, t: &String) -> (r: bool)
    ensures
        r == v@.map_values(|s: String| s@).contains(t@),
{
    let n = v.len();
    let mut i: usize = 0;
    while i < n
        invariant
            n == v@.len(),
            0 <= i <= n,
            forall|j: int| 0 <= j < i ==> v@[j]@ != t@,
        decreases n - i,
    {
        if v[i] == *t {
            assert(v@.map_values(|s: String| s@)[i as int] == t@);
            return true;
        }
        i = i + 1;
    }
    let ghost texts = v@.map_values(|s: String| s@);
    assert forall|j: int| 0 <= j < texts.len() implies #[trigger] texts[j] != t@ by {}
    false
}

/// The controller: the state of both resources, the sort key, the tag filter
/// and the selected tags. It changes only through `update`, one intent at a
/// time, and hands back the fetches to perform.
#[derive(Debug)]
pub struct App {
    entries: ResourceState<Vec<Entry>>,
    tags: ResourceState<Vec<String>>,
    sort: Option<SortKey>,
    tag_filter: Option<String>,
    selected_tags: Vec<String>,
    coordinator: FetchCoordinator,
    base_url: String,
}

/// The entries-only controller is the same state machine.
pub type Cards = App;

impl View for App {
    type V = AppView;

    closed spec fn view(&self) -> AppView {
        AppView {
            entries: self.entries@,
            tags: self.tags@,
            sort: self.sort,
            tag_filter: opt_view(self.tag_filter),
            selected_tags: self.selected_tags@.map_values(|s: String| s@).to_set(),
            coordinator: self.coordinator,
            base_url: self.base_url@,
        }
    }
}

impl App {
    /// A controller for the service at `base_url`, with nothing loaded, no
    /// sort key, no tag filter and no selected tag.
    pub fn new(base_url: &str) -> (r: App)
        ensures
            r@ == AppView::initial(base_url@),
    {
        let r = App {
            entries: ResourceState::Idle,
            tags: ResourceState::Idle,
            sort: None,
            tag_filter: None,
            selected_tags: Vec::new(),
            coordinator: FetchCoordinator::new(),
            base_url: base_url.to_owned(),
        };
        assert(r@.selected_tags =~= Set::empty());
        r
    }

    /// Another fetch of either resource can still be numbered; `update`
    /// needs it.
    pub fn can_update(&self) -> (r: bool)
        ensures
            r == self@.coordinator.has_headroom(),
    {
        self.coordinator.can_issue()
    }

    fn issue_entries(&mut self) -> (c: FetchCommand)
        requires
            old(self)@.coordinator.entries_issued < u64::MAX,
        ensures
            final(self)@ == old(self)@.reload_entries(),
            c@ == final(self)@.entries_request(),
    {
        self.entries = ResourceState::Loading;
        let handle = self.coordinator.issue(ResourceKind::Entries);
        let url = build(self.base_url.as_str(), self.sort, &self.tag_filter);
        FetchCommand { handle, url }
    }

    fn issue_tags(&mut self) -> (c: FetchCommand)
        requires
            old(self)@.coordinator.tags_issued < u64::MAX,
        ensures
            final(self)@ == old(self)@.reload_tags(),
            c@ == final(self)@.tags_request(),
    {
        self.tags = ResourceState::Loading;
        let handle = self.coordinator.issue(ResourceKind::Tags);
        let url = build_tags(self.base_url.as_str());
        FetchCommand { handle, url }
    }

    fn select(&mut self, t: &String)
        ensures
            final(self)@ == (AppView {
                selected_tags: old(self)@.selected_tags.insert(t@),
                ..old(self)@
            }),
    {
        let ghost before = self.selected_tags@.map_values(|s: String| s@);
        if holds_text(&self.selected_tags, t) {
            assert(self@.selected_tags =~= old(self)@.selected_tags.insert(t@));
        } else {
            self.selected_tags.push(t.clone());
            let ghost after = self.selected_tags@.map_values(|s: String| s@);
            assert(after =~= before.push(t@));
            assert forall|x: Seq<char>| #[trigger] after.contains(x) <==> (before.contains(x) || x == t@) by {
                if after.contains(x) {
                    let j = choose|j: int| 0 <= j < after.len() && after[j] == x;
                    if j < before.len() {
                        assert(before[j] == x);
                    }
                }
                if x == t@ {
                    assert(after[before.len() as int] == x);
                }
                if before.contains(x) {
                    let j = choose|j: int| 0 <= j < before.len() && before[j] == x;
                    assert(after[j] == x);
                }
            }
            assert(self@.selected_tags =~= old(self)@.selected_tags.insert(t@));
        }
    }

    /// The state of the entries.
    pub fn entries(&self) -> (r: &ResourceState<Vec<Entry>>)
        ensures
            r@ == self@.entries,
    {
        &self.entries
    }

    /// The state of the tags.
    pub fn tags(&self) -> (r: &ResourceState<Vec<String>>)
        ensures
            r@ == self@.tags,
    {
        &self.tags
    }

    pub fn sort(&self) -> (r: Option<SortKey>)
        ensures
            r == self@.sort,
    {
        self.sort
    }

    pub fn tag_filter(&self) -> (r: &Option<String>)
        ensures
            opt_view(*r) == self@.tag_filter,
    {
        &self.tag_filter
    }

    /// Whether the user has selected the tag `t`.
    pub fn is_selected(&self, t: &String) -> (r: bool)
        ensures
            r == self@.selected_tags.contains(t@),
    {
        holds_text(&self.selected_tags, t)
    }

    pub fn coordinator(&self) -> (r: FetchCoordinator)
        ensures
            r == self@.coordinator,
    {
        self.coordinator
    }

    pub fn base_url(&self) -> (r: &str)
        ensures
            r@ == self@.base_url,
    {
        self.base_url.as_str()
    }

    /// The cards of the loaded entries, in the order of the entries; none
    /// while the entries are not loaded.
    pub fn cards(&self) -> (r: Vec<Card>)
        ensures
            match self@.entries {
                ResourceState::Loaded(list) => r@.len() == list.len() && forall|i: int|
                    0 <= i < list.len() ==> (#[trigger] r@[i]).shows(list[i]),
                _ => r@.len() == 0,
            },
    {
        let mut r: Vec<Card> = Vec::new();
        match &self.entries {
            ResourceState::Loaded(list) => {
                let n = list.len();
                let mut i: usize = 0;
                while i < n
                    invariant
                        n == list@.len(),
                        0 <= i <= n,
                        r@.len() == i,
                        forall|j: int| 0 <= j < i ==> (#[trigger] r@[j]).shows(list@[j]),
                    decreases n - i,
                {
                    r.push(Card::of(&list[i]));
                    i = i + 1;
                }
            },
            _ => {},
        }
        r
    }

    /// The notice shown in place of the cards: "No Content" while the entries
    /// are not loaded, whether idle, loading or failed; none once they are.
    pub fn entries_notice(&self) -> (r: Option<&'static str>)
        ensures
            match r {
                None => self@.entries is Loaded,
                Some(text) => !(self@.entries is Loaded) && text@ == "No Content"@,
            },
    {
        if self.entries.is_loaded() {
            None
        } else {
            Some("No Content")
        }
    }

    /// Reacts to one intent: the new state is `next` of the old one, and the
    /// fetches handed back are the ones that the intent issues.
    pub fn update(&mut self, msg: Msg) -> (r: Vec<FetchCommand>)
        requires
            old(self)@.coordinator.has_headroom(),
        ensures
            final(self)@ == old(self)@.next(msg),
            r@.map_values(|c: FetchCommand| c@) == old(self)@.commands(msg),
    {
        let ghost m = msg;
        let r = match msg {
            Msg::RequestLoad => {
                let e = self.issue_entries();
                let t = self.issue_tags();
                vec![e, t]
            },
            Msg::SortBy(k) => {
                self.sort = Some(k);
                let e = self.issue_entries();
                vec![e]
            },
            Msg::FilterByTag(t) => {
                self.sort = Some(SortKey::Date);
                self.select(&t);
                self.tag_filter = Some(t);
                let e = self.issue_entries();
                vec![e]
            },
            Msg::ClearTags => {
                self.tag_filter = None;
                self.selected_tags = Vec::new();
                proof {
                    assert(self.selected_tags@.map_values(|s: String| s@).to_set() =~= Set::empty());
                }
                let e = self.issue_entries();
                vec![e]
            },
            Msg::EntriesArrived(h, res) => {
                if h.kind == ResourceKind::Entries && self.coordinator.accept(h) {
                    self.entries = ResourceState::from_result(res);
                }
                Vec::new()
            },
            Msg::TagsArrived(h, res) => {
                if h.kind == ResourceKind::Tags && self.coordinator.accept(h) {
                    self.tags = ResourceState::from_result(res);
                }
                Vec::new()
            },
            Msg::KeyDown | Msg::CardMouseOver => Vec::new(),
        };
        assert(r@.map_values(|c: FetchCommand| c@) =~= old(self)@.commands(m));
        r
    }
}

} // verus!
