use vstd::prelude::*;

verus! {

/// The two remote resources that load independently of each other.
#[derive(Clone, Copy, Debug, PartialEq, Eq, Structural)]
pub enum ResourceKind {
    Entries,
    Tags,
}

/// Why a fetch failed.
#[derive(Clone, Copy, Debug, PartialEq, Eq, Structural)]
pub enum FetchError {
    /// The transport failed or the server answered with a non-success status.
    NetworkError,
    /// The body was not of the expected JSON shape.
    DecodeError,
}

impl FetchError {
    /// Text shown to the user for this error.
    pub fn message(&self) -> (r: &'static str)
        ensures
            r@ == self.message_spec(),
    {
        match self {
            FetchError::NetworkError => "network error",
            FetchError::DecodeError => "malformed response",
        }
    }

    pub open spec fn message_spec(&self) -> Seq<char> {
        match self {
            FetchError::NetworkError => "network error"@,
            FetchError::DecodeError => "malformed response"@,
        }
    }
}

/// Where one remote resource stands.
#[derive(Clone, Debug)]
pub enum ResourceState<T> {
    Idle,
    Loading,
    Loaded(T),
    Failed(FetchError),
}

impl<T: View> View for ResourceState<T> {
    type V = ResourceState<T::V>;

    open spec fn view(&self) -> ResourceState<T::V> {
        match self {
            ResourceState::Idle => ResourceState::Idle,
            ResourceState::Loading => ResourceState::Loading,
            ResourceState::Loaded(t) => ResourceState::Loaded(t@),
            ResourceState::Failed(e) => ResourceState::Failed(*e),
        }
    }
}

/// The state that a response puts its resource in: loaded on success, failed
/// with the error otherwise.
pub open spec fn settled<T: View>(res: Result<T, FetchError>) -> ResourceState<T::V> {
    match res {
        Ok(t) => ResourceState::Loaded(t@),
        Err(e) => ResourceState::Failed(e),
    }
}

impl<T: View> ResourceState<T> {
    /// Builds the state that a response puts its resource in.
    pub fn from_result(res: Result<T, FetchError>) -> (r: ResourceState<T>)
        ensures
            r@ == settled(res),
    {
        match res {
            Ok(t) => ResourceState::Loaded(t),
            Err(e) => ResourceState::Failed(e),
        }
    }

    pub fn is_loaded(&self) -> (r: bool)
        ensures
            r == (self is Loaded),
    {
        matches!(self, ResourceState::Loaded(_))
    }

    pub fn is_loading(&self) -> (r: bool)
        ensures
            r == (self is Loading),
    {
        matches!(self, ResourceState::Loading)
    }
}

/// Identifies one issued fetch: its resource and its generation, the number
/// of fetches issued for that resource so far, this one included.
#[derive(Clone, Copy, Debug, PartialEq, Eq, Structural)]
pub struct RequestHandle {
    pub kind: ResourceKind,
    pub generation: u64,
}

/// Tracks, for each resource, how many fetches were issued and whether the
/// latest one still awaits its response. Only the response to the latest
/// fetch of a resource is current; a response to any earlier one is stale and
/// is to be dropped.
#[derive(Clone, Copy, Debug, PartialEq, Eq, Structural)]
pub struct FetchCoordinator {
    pub entries_issued: u64,
    pub entries_pending: bool,
    pub tags_issued: u64,
    pub tags_pending: bool,
}

impl FetchCoordinator {
    pub open spec fn issued(self, kind: ResourceKind) -> u64 {
        match kind {
            ResourceKind::Entries => self.entries_issued,
            ResourceKind::Tags => self.tags_issued,
        }
    }

    pub open spec fn pending(self, kind: ResourceKind) -> bool {
        match kind {
            ResourceKind::Entries => self.entries_pending,
            ResourceKind::Tags => self.tags_pending,
        }
    }

    /// Another fetch of either resource can still be numbered.
    pub open spec fn has_headroom(self) -> bool {
        self.entries_issued < u64::MAX && self.tags_issued < u64::MAX
    }

    /// A response to `h` is to be applied: `h` is the latest fetch of its
    /// resource and no response to it was applied yet.
    pub open spec fn is_current(self, h: RequestHandle) -> bool {
        self.pending(h.kind) && h.generation == self.issued(h.kind)
    }

    /// The coordinator after one more fetch of `kind` was issued.
    pub open spec fn after_issue(self, kind: ResourceKind) -> FetchCoordinator
        recommends
            self.issued(kind) < u64::MAX,
    {
        match kind {
            ResourceKind::Entries => FetchCoordinator {
                entries_issued: (self.entries_issued + 1) as u64,
                entries_pending: true,
                ..self
            },
            ResourceKind::Tags => FetchCoordinator {
                tags_issued: (self.tags_issued + 1) as u64,
                tags_pending: true,
                ..self
            },
        }
    }

    /// The coordinator after the response to the latest fetch of `kind` was
    /// applied.
    pub open spec fn after_complete(self, kind: ResourceKind) -> FetchCoordinator {
        match kind {
            ResourceKind::Entries => FetchCoordinator { entries_pending: false, ..self },
            ResourceKind::Tags => FetchCoordinator { tags_pending: false, ..self },
        }
    }

    /// A coordinator that has issued nothing.
    pub fn new() -> (r: FetchCoordinator)
        ensures
            r.entries_issued == 0 && !r.entries_pending,
            r.tags_issued == 0 && !r.tags_pending,
    {
        FetchCoordinator {
            entries_issued: 0,
            entries_pending: false,
            tags_issued: 0,
            tags_pending: false,
        }
    }

    pub fn can_issue(&self) -> (r: bool)
        ensures
            r == self.has_headroom(),
    {
        self.entries_issued < u64::MAX && self.tags_issued < u64::MAX
    }

    /// Issues a fetch of `kind`; every earlier handle of that kind stops being
    /// current, the handles of the other kind are untouched.
    pub fn issue(&mut self, kind: ResourceKind) -> (h: RequestHandle)
        requires
            old(self).issued(kind) < u64::MAX,
        ensures
            *final(self) == old(self).after_issue(kind),
            h == (RequestHandle { kind, generation: final(self).issued(kind) }),
            final(self).is_current(h),
    {
        match kind {
            ResourceKind::Entries => {
                self.entries_issued = self.entries_issued + 1;
                self.entries_pending = true;
                RequestHandle { kind, generation: self.entries_issued }
            },
            ResourceKind::Tags => {
                self.tags_issued = self.tags_issued + 1;
                self.tags_pending = true;
                RequestHandle { kind, generation: self.tags_issued }
            },
        }
    }

    /// Whether a response to `h` is to be applied now.
    pub fn is_latest(&self, h: RequestHandle) -> (r: bool)
        ensures
            r == self.is_current(h),
    {
        match h.kind {
            ResourceKind::Entries => self.entries_pending && h.generation == self.entries_issued,
            ResourceKind::Tags => self.tags_pending && h.generation == self.tags_issued,
        }
    }

    /// Accepts the response to `h` if it is current, and then marks the fetch
    /// answered; a stale response leaves the coordinator as it was.
    pub fn accept(&mut self, h: RequestHandle) -> (r: bool)
        ensures
            r == old(self).is_current(h),
            *final(self) == if r {
                old(self).after_complete(h.kind)
            } else {
                *old(self)
            },
    {
        if self.is_latest(h) {
            match h.kind {
                ResourceKind::Entries => self.entries_pending = false,
                ResourceKind::Tags => self.tags_pending = false,
            }
            true
        } else {
            false
        }
    }
}

} // verus!
