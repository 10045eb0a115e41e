use vstd::prelude::*;
use vstd::string::*;

verus! {

/// Base URL of the archive service when none is configured.
pub const DEFAULT_BASE_URL: &'static str = "http://localhost:3000";

/// Order in which the service returns entries.
#[derive(Clone, Copy, Debug, PartialEq, Eq, Structural)]
pub enum SortKey {
    /// Chronological order, `sort=time`.
    Date,
    /// Order by URL, `sort=url`.
    Url,
}

/// The value of the `sort` parameter for `k`.
pub open spec fn sort_value(k: SortKey) -> Seq<char> {
    match k {
        SortKey::Date => "time"@,
        SortKey::Url => "url"@,
    }
}

/// What the `application/x-www-form-urlencoded` byte serializer makes of the
/// UTF-8 bytes of `s`.
pub uninterp spec fn form_encoded(s: Seq<char>) -> Seq<char>;

/// The characters that the form serializer leaves as they are.
pub open spec fn is_form_unreserved(c: char) -> bool {
    ('a' <= c && c <= 'z') || ('A' <= c && c <= 'Z') || ('0' <= c && c <= '9') || c == '*'
        || c == '-' || c == '.' || c == '_'
}

/// The characters that the form serializer may write: the unreserved ones,
/// `+` for a space and `%` before two hexadecimal digits.
pub open spec fn is_form_output(c: char) -> bool {
    is_form_unreserved(c) || c == '+' || c == '%'
}

/// Relies on `url::form_urlencoded::byte_serialize`: unreserved bytes pass
/// through, a space becomes `+`, every other byte becomes `%` and two
/// upper-case hexadecimal digits, so no `&`, `#`, `=` or space is left.
#[verifier::external_body]
fn form_encode(s: &str) -> (r: String)
    ensures
        r@ == form_encoded(s@),
        forall|i: int| 0 <= i < r@.len() ==> is_form_output(#[trigger] r@[i]),
        (forall|i: int| 0 <= i < s@.len() ==> is_form_unreserved(#[trigger] s@[i])) ==> r@ == s@,
{
    url::form_urlencoded::byte_serialize(s.as_bytes()).collect()
}

/// Path of the entries resource under the base URL.
pub open spec fn entries_path() -> Seq<char> {
    "/all/cache"@
}

/// Path of the tags resource under the base URL.
pub open spec fn tags_path() -> Seq<char> {
    "/all/tags"@
}

/// The query string of an entries request: the `sort` parameter when a sort
/// key is set, then the encoded `tag` parameter when a tag is set. The two are
/// independent of each other.
pub open spec fn query_string(sort: Option<SortKey>, tag: Option<Seq<char>>) -> Seq<char> {
    match (sort, tag) {
        (None, None) => Seq::empty(),
        (Some(k), None) => "?sort="@ + sort_value(k),
        (None, Some(t)) => "?tag="@ + form_encoded(t),
        (Some(k), Some(t)) => "?sort="@ + sort_value(k) + "&tag="@ + form_encoded(t),
    }
}

/// URL of the entries request for the given base URL, sort key and tag.
pub open spec fn entries_url(base: Seq<char>, sort: Option<SortKey>, tag: Option<Seq<char>>) -> Seq<char> {
    base + entries_path() + query_string(sort, tag)
}

/// URL of the tags request for the given base URL.
pub open spec fn tags_url(base: Seq<char>) -> Seq<char> {
    base + tags_path()
}

pub open spec fn opt_view(o: Option<String>) -> Option<Seq<char>> {
    match o {
        Some(s) => Some(s@),
        None => None,
    }
}

/// Composes the URL of an entries request from the base URL, the sort key and
/// the tag filter. The tag is form-encoded, so reserved characters in a tag
/// name cannot add or cut parameters.
pub fn build(base: &str, sort: Option<SortKey>, tag: &Option<String>) -> (r: String)
    ensures
        r@ == entries_url(base@, sort, opt_view(*tag)),
{
    let mut url = base.to_owned();
    url.append("/all/cache");
    match sort {
        Some(k) => {
            url.append("?sort=");
            match k {
                SortKey::Date => url.append("time"),
                SortKey::Url => url.append("url"),
            }
        },
        None => {},
    }
    match tag {
        Some(t) => {
            let encoded = form_encode(t.as_str());
            if sort.is_some() {
                url.append("&tag=");
            } else {
                url.append("?tag=");
            }
            url.append(encoded.as_str());
        },
        None => {},
    }
    proof {
        assert(url@ =~= entries_url(base@, sort, opt_view(*tag)));
    }
    url
}

/// Composes the URL of the tags request from the base URL.
pub fn build_tags(base: &str) -> (r: String)
    ensures
        r@ == tags_url(base@),
{
    let mut url = base.to_owned();
    url.append("/all/tags");
    url
}

} // verus!
