use vstd::prelude::*;

use crate::controller::{AppView, Msg};
use crate::entry::Entry;
use crate::query::{entries_url, form_encoded, SortKey};
use crate::resource::{settled, FetchCoordinator, FetchError, RequestHandle, ResourceKind};

verus! {

/// The intents that issue a new entries fetch.
pub open spec fn reloads_entries(m: Msg) -> bool {
    m is RequestLoad || m is SortBy || m is FilterByTag || m is ClearTags
}

/// The `tag` parameter that follows the `sort` parameter of an entries URL.
pub open spec fn tag_suffix(tag: Option<Seq<char>>) -> Seq<char> {
    match tag {
        None => Seq::empty(),
        Some(t) => "&tag="@ + form_encoded(t),
    }
}

/// Composing an entries URL is deterministic: the same base URL, sort key and
/// tag give the same URL, so two controller states that agree on them issue
/// entries fetches for the same URL.
pub proof fn build_is_deterministic(s1: AppView, s2: AppView)
    requires
        s1.base_url == s2.base_url,
        s1.sort == s2.sort,
        s1.tag_filter == s2.tag_filter,
    ensures
        entries_url(s1.base_url, s1.sort, s1.tag_filter) == entries_url(
            s2.base_url,
            s2.sort,
            s2.tag_filter,
        ),
        s1.reload_entries().entries_request().url == s2.reload_entries().entries_request().url,
{
}

/// No intent lowers the number of fetches issued for a resource.
pub proof fn issued_never_decreases(s: AppView, m: Msg, kind: ResourceKind)
    requires
        s.coordinator.has_headroom(),
    ensures
        s.next(m).coordinator.issued(kind) >= s.coordinator.issued(kind),
{
}

/// A response to a fetch that a later fetch of the same resource superseded
/// changes nothing.
pub proof fn superseded_response_is_dropped(
    s: AppView,
    h: RequestHandle,
    re: Result<Vec<Entry>, FetchError>,
    rt: Result<Vec<String>, FetchError>,
)
    requires
        h.generation < s.coordinator.issued(h.kind),
    ensures
        s.next(Msg::EntriesArrived(h, re)) == s,
        s.next(Msg::TagsArrived(h, rt)) == s,
{
}

/// Last request wins: after entries fetch A and then entries fetch B were
/// issued, the response to A is dropped whether it comes before or after the
/// response to B, and the entries reflect B's response once it came.
pub proof fn last_entries_request_wins(
    s: AppView,
    m1: Msg,
    m2: Msg,
    ra: Result<Vec<Entry>, FetchError>,
    rb: Result<Vec<Entry>, FetchError>,
)
    requires
        reloads_entries(m1),
        reloads_entries(m2),
        s.coordinator.entries_issued < u64::MAX - 1,
        s.coordinator.tags_issued < u64::MAX - 1,
    ensures
        ({
            let a = s.commands(m1)[0].handle;
            let s2 = s.next(m1).next(m2);
            let b = s.next(m1).commands(m2)[0].handle;
            let s3 = s2.next(Msg::EntriesArrived(b, rb));
            &&& s2.entries is Loading
            &&& s2.next(Msg::EntriesArrived(a, ra)) == s2
            &&& s3.entries == settled(rb)
            &&& s3.next(Msg::EntriesArrived(a, ra)) == s3
        }),
{
    let a = s.commands(m1)[0].handle;
    let s1 = s.next(m1);
    let s2 = s1.next(m2);
    let b = s1.commands(m2)[0].handle;
    let s3 = s2.next(Msg::EntriesArrived(b, rb));
    assert(a.generation == s1.coordinator.entries_issued);
    assert(s2.coordinator.entries_issued == s1.coordinator.entries_issued + 1);
    assert(s3.coordinator.entries_issued == s2.coordinator.entries_issued);
}

/// Last request wins for the tags too: after two loads, the response to the
/// first tags fetch is dropped before and after the response to the second.
pub proof fn last_tags_request_wins(
    s: AppView,
    ra: Result<Vec<String>, FetchError>,
    rb: Result<Vec<String>, FetchError>,
)
    requires
        s.coordinator.entries_issued < u64::MAX - 1,
        s.coordinator.tags_issued < u64::MAX - 1,
    ensures
        ({
            let a = s.commands(Msg::RequestLoad)[1].handle;
            let s2 = s.next(Msg::RequestLoad).next(Msg::RequestLoad);
            let b = s.next(Msg::RequestLoad).commands(Msg::RequestLoad)[1].handle;
            let s3 = s2.next(Msg::TagsArrived(b, rb));
            &&& s2.tags is Loading
            &&& s2.next(Msg::TagsArrived(a, ra)) == s2
            &&& s3.tags == settled(rb)
            &&& s3.next(Msg::TagsArrived(a, ra)) == s3
        }),
{
}

/// The resources are independent: a tags response, failed or not, leaves the
/// entries and their fetch alone, and an entries response leaves the tags and
/// their fetch alone.
pub proof fn responses_are_independent(
    s: AppView,
    h: RequestHandle,
    re: Result<Vec<Entry>, FetchError>,
    rt: Result<Vec<String>, FetchError>,
)
    ensures
        s.next(Msg::TagsArrived(h, rt)).entries == s.entries,
        s.next(Msg::TagsArrived(h, rt)).coordinator.entries_issued == s.coordinator.entries_issued,
        s.next(Msg::TagsArrived(h, rt)).coordinator.entries_pending == s.coordinator.entries_pending,
        s.next(Msg::EntriesArrived(h, re)).tags == s.tags,
        s.next(Msg::EntriesArrived(h, re)).coordinator.tags_issued == s.coordinator.tags_issued,
        s.next(Msg::EntriesArrived(h, re)).coordinator.tags_pending == s.coordinator.tags_pending,
{
}

/// Sorting and filtering fetch the entries alone: the tags, and the tags
/// fetch in flight, stay as they were.
pub proof fn sort_and_filter_leave_tags(s: AppView, m: Msg)
    requires
        m is SortBy || m is FilterByTag || m is ClearTags,
    ensures
        s.commands(m).len() == 1,
        s.commands(m)[0].handle.kind == ResourceKind::Entries,
        s.next(m).tags == s.tags,
        s.next(m).coordinator.tags_issued == s.coordinator.tags_issued,
        s.next(m).coordinator.tags_pending == s.coordinator.tags_pending,
{
}

/// Sorting by date issues an entries request with `sort=time`, sorting by URL
/// one with `sort=url`; a tag filter that is set stays in the request.
pub proof fn sort_by_sets_sort_parameter(s: AppView, k: SortKey)
    ensures
        s.commands(Msg::SortBy(k)).len() == 1,
        s.commands(Msg::SortBy(k))[0].handle.kind == ResourceKind::Entries,
        k == SortKey::Date ==> s.commands(Msg::SortBy(k))[0].url == s.base_url
            + "/all/cache?sort=time"@ + tag_suffix(s.tag_filter),
        k == SortKey::Url ==> s.commands(Msg::SortBy(k))[0].url == s.base_url
            + "/all/cache?sort=url"@ + tag_suffix(s.tag_filter),
{
    reveal_strlit("/all/cache");
    reveal_strlit("?sort=");
    reveal_strlit("time");
    reveal_strlit("url");
    reveal_strlit("/all/cache?sort=time");
    reveal_strlit("/all/cache?sort=url");
    let url = s.commands(Msg::SortBy(k))[0].url;
    if k == SortKey::Date {
        assert(url =~= s.base_url + "/all/cache?sort=time"@ + tag_suffix(s.tag_filter));
    } else {
        assert(url =~= s.base_url + "/all/cache?sort=url"@ + tag_suffix(s.tag_filter));
    }
}

/// Filtering by a tag issues an entries request with both `sort=time` and the
/// encoded tag, whatever the sort key was.
pub proof fn filter_by_tag_sorts_by_date(s: AppView, t: String)
    ensures
        s.commands(Msg::FilterByTag(t)).len() == 1,
        s.commands(Msg::FilterByTag(t))[0].handle.kind == ResourceKind::Entries,
        s.commands(Msg::FilterByTag(t))[0].url == s.base_url + "/all/cache?sort=time&tag="@
            + form_encoded(t@),
        s.next(Msg::FilterByTag(t)).sort == Some(SortKey::Date),
        s.next(Msg::FilterByTag(t)).tag_filter == Some(t@),
        s.next(Msg::FilterByTag(t)).selected_tags.contains(t@),
{
    reveal_strlit("/all/cache");
    reveal_strlit("?sort=");
    reveal_strlit("time");
    reveal_strlit("&tag=");
    reveal_strlit("/all/cache?sort=time&tag=");
    let url = s.commands(Msg::FilterByTag(t))[0].url;
    assert(url =~= s.base_url + "/all/cache?sort=time&tag="@ + form_encoded(t@));
}

} // verus!
