//! Wikipedia's page summary and its first images.
use vstd::prelude::*;
use crate::text::str_eq;
use crate::text::{
    chars_of, ends_with, ends_with_spec, push_str, replace, replace_spec, starts_with,
    starts_with_spec, string_of_range, trim, trim_spec, views,
};

verus! {

/// At most this many images are kept.
pub const MAX_IMAGES: usize = 6;

/// What the card shows from Wikipedia.
#[derive(Debug, Clone, PartialEq)]
pub struct WikipediaSummary {
    pub title: String,
    pub extract: String,
    pub url: Option<String>,
    /// Absolute URLs of the first few images of the article, in source
    /// order. Empty when the article has none.
    pub images: Vec<String>,
}

/// The summary endpoint's fields.
#[derive(Debug, Clone)]
pub struct WikiRawSummary {
    /// `type`: `standard`, `disambiguation`, `no-extract`, ...
    pub kind: String,
    pub title: String,
    pub extract: String,
    /// `content_urls.desktop.page`.
    pub page_url: Option<String>,
}

/// One item of the media-list endpoint.
#[derive(Debug, Clone)]
pub struct WikiRawMedia {
    /// `type`: `image`, `video`, ...
    pub kind: String,
    /// The `src` of every `srcset` entry, in order.
    pub srcs: Vec<String>,
}

/// An image source made absolute: protocol-relative `//host/...` gets
/// `https:`, `http(s)://` is kept, anything else (or blank) is dropped.
pub open spec fn normalize_image_url_spec(src: Seq<char>) -> Option<Seq<char>> {
    let s = trim_spec(src);
    if s.len() == 0 {
        None
    } else if starts_with_spec(s, "//"@) {
        Some("https://"@ + s.skip(2))
    } else if starts_with_spec(s, "https://"@) || starts_with_spec(s, "http://"@) {
        Some(s)
    } else {
        None
    }
}

pub fn normalize_image_url(src: &str) -> (r: Option<String>)
    ensures
        match r {
            Some(u) => normalize_image_url_spec(src@) == Some(u@),
            None => normalize_image_url_spec(src@) is None,
        },
{
    let s = trim(src);
    let v = chars_of(s.as_str());
    if v.len() == 0 {
        return None;
    }
    if starts_with(s.as_str(), "//") {
        proof {
            reveal_strlit("//");
        }
        let mut u = String::new();
        push_str(&mut u, "https://");
        let rest = string_of_range(&v, 2, v.len());
        assert(v@.subrange(2, v@.len() as int) == v@.skip(2));
        push_str(&mut u, rest.as_str());
        Some(u)
    } else if starts_with(s.as_str(), "https://") || starts_with(s.as_str(), "http://") {
        Some(s)
    } else {
        None
    }
}

/// The first source of an item that normalizes.
pub open spec fn first_image_spec(srcs: Seq<String>) -> Option<Seq<char>>
    decreases srcs.len(),
{
    if srcs.len() == 0 {
        None
    } else if normalize_image_url_spec(srcs[0]@) is Some {
        normalize_image_url_spec(srcs[0]@)
    } else {
        first_image_spec(srcs.drop_first())
    }
}

/// Image URLs of the `image` items, one per item (its first usable
/// source), in order, before the cap.
pub open spec fn image_urls_spec(items: Seq<WikiRawMedia>) -> Seq<Seq<char>>
    decreases items.len(),
{
    if items.len() == 0 {
        seq![]
    } else {
        image_urls_spec(items.drop_last()) + if items.last().kind@ == "image"@ {
            match first_image_spec(items.last().srcs@) {
                Some(u) => seq![u],
                None => seq![],
            }
        } else {
            seq![]
        }
    }
}

/// The first `n` elements (all when fewer).
pub open spec fn take_at_most<A>(s: Seq<A>, n: nat) -> Seq<A> {
    if s.len() <= n {
        s
    } else {
        s.take(n as int)
    }
}

fn first_image(srcs: &Vec<String>) -> (r: Option<String>)
    ensures
        match r {
            Some(u) => first_image_spec(srcs@) == Some(u@),
            None => first_image_spec(srcs@) is None,
        },
{
    let mut i: usize = 0;
    assert(srcs@.skip(0) == srcs@);
    while i < srcs.len()
        invariant
            i <= srcs.len(),
            first_image_spec(srcs@) == first_image_spec(srcs@.skip(i as int)),
        decreases srcs.len() - i,
    {
        assert(srcs@.skip(i as int).drop_first() == srcs@.skip(i + 1));
        assert(srcs@.skip(i as int)[0] == srcs@[i as int]);
        match normalize_image_url(srcs[i].as_str()) {
            Some(u) => {
                return Some(u);
            },
            None => {},
        }
        i += 1;
    }
    None
}

fn image_urls(items: &Vec<WikiRawMedia>) -> (r: Vec<String>)
    ensures
        views(r@) == take_at_most(image_urls_spec(items@), MAX_IMAGES as nat),
{
    let mut r: Vec<String> = Vec::new();
    let mut i: usize = 0;
    while i < items.len()
        invariant
            i <= items.len(),
            views(r@) == take_at_most(image_urls_spec(items@.take(i as int)), MAX_IMAGES as nat),
        decreases items.len() - i,
    {
        assert(items@.take((i + 1) as int).drop_last() == items@.take(i as int));
        let is_image = str_eq(items[i].kind.as_str(), "image");
        proof {
            assert(is_image == (items@[i as int].kind@ == "image"@));
        }
        if is_image {
            match first_image(&items[i].srcs) {
                Some(u) => {
                    if r.len() < MAX_IMAGES {
                        let ghost before = r@;
                        r.push(u);
                        assert(views(r@) == views(before).push(u@));
                    }
                },
                None => {},
            }
        }
        i += 1;
    }
    assert(items@.take(items.len() as int) == items@);
    r
}

/// The summary is shown unless it is a disambiguation page, has no
/// extract, or its extract is blank.
pub open spec fn summary_usable(s: WikiRawSummary) -> bool {
    s.kind@ != "disambiguation"@ && s.kind@ != "no-extract"@ && trim_spec(s.extract@).len() > 0
}

/// What the card shows from Wikipedia, given the summary (if its request
/// succeeded) and the media list (if its request succeeded).
pub fn wikipedia_from_raw(summary: Option<WikiRawSummary>, media: Option<Vec<WikiRawMedia>>) -> (r:
    Option<WikipediaSummary>)
    ensures
        match summary {
            Some(s) => if summary_usable(s) {
                r matches Some(w) && w.title@ == s.title@ && w.extract@ == s.extract@ && optv(
                    w.url,
                ) == optv(s.page_url) && views(w.images@) == match media {
                    Some(m) => take_at_most(image_urls_spec(m@), MAX_IMAGES as nat),
                    None => Seq::<Seq<char>>::empty(),
                }
            } else {
                r is None
            },
            None => r is None,
        },
{
    let s = match summary {
        Some(s) => s,
        None => {
            return None;
        },
    };
    let disamb = str_eq(s.kind.as_str(), "disambiguation");
    let noext = str_eq(s.kind.as_str(), "no-extract");
    let t = trim(s.extract.as_str());
    if disamb || noext || t.as_str().unicode_len() == 0 {
        return None;
    }
    let images = match &media {
        Some(m) => image_urls(m),
        None => Vec::new(),
    };
    proof {
        if media is None {
            assert(views(images@) == Seq::<Seq<char>>::empty());
        }
    }
    Some(WikipediaSummary { title: s.title, extract: s.extract, url: s.page_url, images })
}

/// The view of an optional string.
pub open spec fn optv(o: Option<String>) -> Option<Seq<char>> {
    match o {
        Some(s) => Some(s@),
        None => None,
    }
}

/// The media-list endpoint next to a summary endpoint: a trailing
/// `/summary` becomes `/media-list`; otherwise every `/summary` is
/// replaced.
pub open spec fn media_base_spec(base: Seq<char>) -> Seq<char> {
    if ends_with_spec(base, "/summary"@) {
        base.take(base.len() - 8) + "/media-list"@
    } else {
        replace_spec(base, "/summary"@, "/media-list"@)
    }
}

pub fn media_base_for(base: &str) -> (r: String)
    ensures
        r@ == media_base_spec(base@),
{
    proof {
        reveal_strlit("/summary");
    }
    if ends_with(base, "/summary") {
        let v = chars_of(base);
        let mut r = string_of_range(&v, 0, v.len() - 8);
        assert(v@.subrange(0, v.len() - 8) == v@.take(v.len() - 8));
        push_str(&mut r, "/media-list");
        r
    } else {
        replace(base, "/summary", "/media-list")
    }
}

} // verus!
