use vstd::prelude::*;
use vstd::string::*;

use crate::query::opt_view;

verus! {

/// One archived note or bookmark, as the service sends it.
#[derive(Clone, Debug)]
pub struct Entry {
    /// When the entry was archived, as the service writes it.
    pub time: String,
    pub entry_id: i64,
    pub content: Option<String>,
    pub date: String,
    pub url: Option<String>,
    pub screenshot_file: Option<String>,
    pub thumbnail_file: Option<String>,
}

/// What one card of the entries list shows.
#[derive(Clone, Debug)]
pub struct Card {
    /// The entry's date, as the heading.
    pub date: String,
    /// The entry's URL, or empty when it has none.
    pub link: String,
    /// The host of the entry's URL, or empty when it has none.
    pub host: String,
    /// The entry's content, or empty when it has none.
    pub text: String,
    /// The thumbnail image, or empty when the entry has none.
    pub thumbnail: String,
    /// The screenshot image, or empty when the entry has none.
    pub screenshot: String,
}

/// The host that the URL parser finds in `s`, if `s` parses as an absolute
/// URL with a host.
pub uninterp spec fn url_host(s: Seq<char>) -> Option<Seq<char>>;

/// Relies on `url::Url::parse` and `url::Url::host_str`: the host of `s` when
/// it parses as an absolute URL that has one.
#[verifier::external_body]
fn parse_host(s: &str) -> (r: Option<String>)
    ensures
        opt_view(r) == url_host(s@),
{
    match url::Url::parse(s) {
        Ok(u) => u.host_str().map(String::from),
        Err(_) => None,
    }
}

/// The text of `o`, or the empty text.
pub open spec fn or_empty(o: Option<Seq<char>>) -> Seq<char> {
    match o {
        Some(s) => s,
        None => Seq::empty(),
    }
}

/// Suffix that replaces the extension of an image file to name its thumbnail.
pub open spec fn thumbnail_suffix() -> Seq<char> {
    "_tn.png"@
}

/// The thumbnail of an image file: the file's name without its last four
/// characters (its extension, `.png`) followed by `_tn.png`; a name shorter
/// than four characters is kept whole. No file, no thumbnail.
pub open spec fn thumbnail_of(file: Option<Seq<char>>) -> Seq<char> {
    match file {
        None => Seq::empty(),
        Some(f) => if f.len() >= 4 {
            f.subrange(0, f.len() - 4) + thumbnail_suffix()
        } else {
            f + thumbnail_suffix()
        },
    }
}

fn text_or_empty(o: &Option<String>) -> (r: String)
    ensures
        r@ == or_empty(opt_view(*o)),
{
    match o {
        Some(s) => s.clone(),
        None => String::new(),
    }
}

/// Names the thumbnail of an image file.
pub fn thumbnail_name(file: &Option<String>) -> (r: String)
    ensures
        r@ == thumbnail_of(opt_view(*file)),
{
    match file {
        None => String::new(),
        Some(f) => {
            let n = f.as_str().unicode_len();
            let mut name = if n >= 4 {
                f.as_str().substring_char(0, n - 4).to_owned()
            } else {
                f.clone()
            };
            name.append("_tn.png");
            name
        },
    }
}

impl Card {
    /// `self` is the card of `e`: the host label is what the URL parser finds
    /// in the entry's URL, or empty.
    pub open spec fn shows(self, e: Entry) -> bool {
        &&& self.date@ == e.date@
        &&& self.link@ == or_empty(opt_view(e.url))
        &&& self.host@ == or_empty(url_host(or_empty(opt_view(e.url))))
        &&& self.text@ == or_empty(opt_view(e.content))
        &&& self.thumbnail@ == thumbnail_of(opt_view(e.thumbnail_file))
        &&& self.screenshot@ == or_empty(opt_view(e.screenshot_file))
    }

    /// The card of `e` whose host label is `host`, the host that the URL
    /// parser found in the entry's URL.
    pub fn with_host(e: &Entry, host: Option<String>) -> (r: Card)
        ensures
            r.date@ == e.date@,
            r.link@ == or_empty(opt_view(e.url)),
            r.host@ == or_empty(opt_view(host)),
            r.text@ == or_empty(opt_view(e.content)),
            r.thumbnail@ == thumbnail_of(opt_view(e.thumbnail_file)),
            r.screenshot@ == or_empty(opt_view(e.screenshot_file)),
    {
        Card {
            date: e.date.clone(),
            link: text_or_empty(&e.url),
            host: text_or_empty(&host),
            text: text_or_empty(&e.content),
            thumbnail: thumbnail_name(&e.thumbnail_file),
            screenshot: text_or_empty(&e.screenshot_file),
        }
    }

    /// The card of `e`; its host label is the host of the entry's URL, or
    /// empty when the URL is missing, does not parse, or has no host.
    pub fn of(e: &Entry) -> (r: Card)
        ensures
            r.shows(*e),
    {
        let link = text_or_empty(&e.url);
        let host = parse_host(link.as_str());
        Card::with_host(e, host)
    }
}

} // verus!
