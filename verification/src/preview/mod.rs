//! The rich Quick Look card: every source's data in one HTML page,
//! blocks in a fixed priority order, a block with no data skipped.
use vstd::prelude::*;
use crate::text::{
    ascii_lowercase_spec, contains, contains_spec, decimal_spec, esc_spec, is_ascii_alnum,
    join_spec, lemma_contains_self, lemma_contains_within, lemma_trim_idempotent, push_char, push_escaped, push_joined, push_str, push_u64,
    str_eq, strip_tags, strip_tags_spec, take_chars_spec, to_ascii_lowercase, trim, trim_spec,
    views,
};
use crate::url::{encode_path_segment, encode_path_segment_spec};
use crate::llm::response::{LlmChinese, LlmEnglish, LlmExample, LlmResult, LlmTech};
use crate::sources::DictEntry;
use crate::card::CardSources;
use crate::sources::wiktionary::WkSense;

pub mod blocks;
pub mod markup;
pub mod page;

verus! {

// ---------------------------------------------------------------------
// File name
// ---------------------------------------------------------------------

/// A file-name character: ASCII letters and digits are kept, anything
/// else becomes `_`.
pub open spec fn fname_char(c: char) -> char {
    if is_ascii_alnum(c) {
        c
    } else {
        '_'
    }
}

/// The characters the name is built from: the trimmed word, ASCII
/// lowercased, cut to 60 characters.
pub open spec fn fname_source(spell: Seq<char>) -> Seq<char> {
    take_chars_spec(ascii_lowercase_spec(trim_spec(spell)), 60)
}

/// `preview-<name>.html`, where `<name>` is the word with every
/// non-alphanumeric character replaced by `_`, or `blank` when the word
/// has no letter or digit at all.
pub open spec fn preview_filename_spec(spell: Seq<char>) -> Seq<char> {
    let s = fname_source(spell);
    "preview-"@ + Seq::new(s.len(), |i: int| fname_char(s[i])) + (if forall|i: int|
        0 <= i < s.len() ==> !is_ascii_alnum(s[i]) {
        "blank"@
    } else {
        Seq::<char>::empty()
    }) + ".html"@
}

/// A character that is safe in a file name on every platform.
pub open spec fn is_filename_safe(c: char) -> bool {
    is_ascii_alnum(c) || c == '_' || c == '-' || c == '.'
}

/// File name inside the cache directory for a word's card. One file per
/// word, so concurrent queries (typing "as" then "ass") cannot race on a
/// shared file; ASCII case is normalized, the length capped.
pub fn preview_filename(spell: &str) -> (r: String)
    ensures
        r@ == preview_filename_spec(spell@),
        forall|i: int| 0 <= i < r@.len() ==> is_filename_safe(#[trigger] r@[i]),
        r@.len() <= 78,
{
    proof {
        reveal_strlit("preview-");
        reveal_strlit("blank");
        reveal_strlit(".html");
    }
    let t = trim(spell);
    let lower = to_ascii_lowercase(t.as_str());
    let n = if lower.len() < 60 {
        lower.len()
    } else {
        60
    };
    let ghost src = fname_source(spell@);
    assert(lower@.take(n as int) == src);
    let mut name = String::new();
    push_str(&mut name, "preview-");
    let mut empty = true;
    let mut i: usize = 0;
    while i < n
        invariant
            i <= n <= lower@.len(),
            n == src.len(),
            lower@.take(n as int) == src,
            "preview-"@.len() == 8,
            name@ == "preview-"@ + Seq::new(i as nat, |k: int| fname_char(src[k])),
            empty == forall|k: int| 0 <= k < i ==> !is_ascii_alnum(src[k]),
        decreases n - i,
    {
        let c = lower[i];
        assert(c == src[i as int]);
        if ('a' <= c && c <= 'z') || ('A' <= c && c <= 'Z') || ('0' <= c && c <= '9') {
            push_char(&mut name, c);
            empty = false;
        } else {
            push_char(&mut name, '_');
        }
        assert(Seq::new((i + 1) as nat, |k: int| fname_char(src[k])) == Seq::new(
            i as nat,
            |k: int| fname_char(src[k]),
        ).push(fname_char(src[i as int])));
        i += 1;
    }
    if empty {
        push_str(&mut name, "blank");
    } else {
        assert(name@ == name@ + Seq::<char>::empty());
    }
    push_str(&mut name, ".html");
    proof {
        let body = Seq::new(n as nat, |k: int| fname_char(src[k]));
        assert forall|k: int| 0 <= k < body.len() implies is_filename_safe(#[trigger] body[k]) by {}
        let r = name@;
        assert forall|k: int| 0 <= k < r.len() implies is_filename_safe(#[trigger] r[k]) by {
            if k < 8 {
                assert(r[k] == "preview-"@[k]);
            } else if k < 8 + n {
                assert(r[k] == body[k - 8]);
            } else if empty && k < 8 + n + 5 {
                assert(r[k] == "blank"@[k - 8 - n]);
            } else if empty {
                assert(r[k] == ".html"@[k - 13 - n]);
            } else {
                assert(r[k] == ".html"@[k - 8 - n]);
            }
        }
    }
    name
}

/// Words that differ only in ASCII case or surrounding whitespace share
/// one card file.
pub proof fn lemma_filename_ignores_case_and_padding(a: Seq<char>, b: Seq<char>)
    requires
        ascii_lowercase_spec(trim_spec(a)) == ascii_lowercase_spec(trim_spec(b)),
    ensures
        preview_filename_spec(a) == preview_filename_spec(b),
{
}

/// A word and its trimmed form share a card file.
pub proof fn lemma_filename_of_trimmed(s: Seq<char>)
    ensures
        preview_filename_spec(s) == preview_filename_spec(trim_spec(s)),
{
    lemma_trim_idempotent(s);
}

/// Words whose trimmed forms share their first 60 characters share a
/// card file.
pub proof fn lemma_filename_reads_first_sixty(a: Seq<char>, b: Seq<char>)
    requires
        take_chars_spec(trim_spec(a), 60) == take_chars_spec(trim_spec(b), 60),
    ensures
        preview_filename_spec(a) == preview_filename_spec(b),
{
    assert forall|x: Seq<char>| #[trigger] take_chars_spec(ascii_lowercase_spec(x), 60)
        == ascii_lowercase_spec(take_chars_spec(x, 60)) by {
        assert(take_chars_spec(ascii_lowercase_spec(x), 60) =~= ascii_lowercase_spec(
            take_chars_spec(x, 60),
        ));
    }
    assert(fname_source(a) == fname_source(b));
}

/// The card file name is at most 78 safe characters (no `/`, no
/// whitespace, all ASCII), with its only `.` in the `.html` ending.
pub proof fn lemma_filename_shape(spell: Seq<char>)
    ensures
        preview_filename_spec(spell).len() <= 78,
        preview_filename_spec(spell).len() >= 13,
        forall|i: int|
            0 <= i < preview_filename_spec(spell).len() ==> is_filename_safe(
                #[trigger] preview_filename_spec(spell)[i],
            ) && (preview_filename_spec(spell)[i] == '.' <==> i == preview_filename_spec(spell).len()
                - 5),
{
    reveal_strlit("preview-");
    reveal_strlit("blank");
    reveal_strlit(".html");
    let src = fname_source(spell);
    let body = Seq::new(src.len(), |i: int| fname_char(src[i]));
    let tail: Seq<char> = if forall|i: int| 0 <= i < src.len() ==> !is_ascii_alnum(src[i]) {
        "blank"@
    } else {
        Seq::<char>::empty()
    };
    let r = preview_filename_spec(spell);
    assert(r == "preview-"@ + body + tail + ".html"@);
    assert(src.len() <= 60);
    let n = 8 + body.len() + tail.len();
    assert forall|i: int| 0 <= i < r.len() implies is_filename_safe(#[trigger] r[i]) && (r[i] == '.'
        <==> i == r.len() - 5) by {
        if i < 8 {
            assert(r[i] == "preview-"@[i]);
        } else if i < 8 + body.len() {
            assert(r[i] == body[i - 8]);
        } else if i < n {
            assert(r[i] == tail[i - 8 - body.len()]);
        } else {
            assert(r[i] == ".html"@[i - n]);
        }
    }
}

// ---------------------------------------------------------------------
// Links
// ---------------------------------------------------------------------

/// The word as a path segment: trimmed and percent-encoded.
pub open spec fn word_enc(spell: Seq<char>) -> Seq<char> {
    encode_path_segment_spec(trim_spec(spell))
}

pub open spec fn wikipedia_url(spell: Seq<char>) -> Seq<char> {
    "https://en.wikipedia.org/wiki/"@ + word_enc(spell)
}

pub open spec fn wiktionary_url(spell: Seq<char>) -> Seq<char> {
    "https://en.wiktionary.org/wiki/"@ + word_enc(spell)
}

pub open spec fn wordnik_url(spell: Seq<char>) -> Seq<char> {
    "https://www.wordnik.com/words/"@ + word_enc(spell)
}

pub open spec fn learners_url(spell: Seq<char>) -> Seq<char> {
    "https://learnersdictionary.com/definition/"@ + word_enc(spell)
}

pub open spec fn thesaurus_url(spell: Seq<char>) -> Seq<char> {
    "https://www.merriam-webster.com/thesaurus/"@ + word_enc(spell)
}

pub open spec fn cambridge_url(spell: Seq<char>) -> Seq<char> {
    "https://dictionary.cambridge.org/dictionary/english/"@ + word_enc(spell)
}

pub open spec fn etymonline_url(spell: Seq<char>) -> Seq<char> {
    "https://www.etymonline.com/word/"@ + word_enc(spell)
}

pub open spec fn youdao_url(spell: Seq<char>) -> Seq<char> {
    "https://www.youdao.com/result?word="@ + word_enc(spell) + "&lang=en"@
}

/// The external pages always offered at the top of the card, even when
/// a source had no data, so the word can be looked up on the site.
pub open spec fn external_links_spec(spell: Seq<char>) -> Seq<(Seq<char>, Seq<char>)> {
    seq![
        ("Wikipedia"@, wikipedia_url(spell)),
        ("Wiktionary"@, wiktionary_url(spell)),
        ("Wordnik"@, wordnik_url(spell)),
        ("M-W Learner's"@, learners_url(spell)),
        ("M-W Thesaurus"@, thesaurus_url(spell)),
        ("Cambridge"@, cambridge_url(spell)),
        ("Etymonline"@, etymonline_url(spell)),
        ("Youdao"@, youdao_url(spell)),
    ]
}

pub open spec fn link_views(v: Seq<(&'static str, String)>) -> Seq<(Seq<char>, Seq<char>)> {
    v.map_values(|p: (&'static str, String)| (p.0@, p.1@))
}

fn url_with(prefix: &str, enc: &String, suffix: &str) -> (r: String)
    ensures
        r@ == prefix@ + enc@ + suffix@,
{
    let mut r = String::new();
    push_str(&mut r, prefix);
    push_str(&mut r, enc.as_str());
    push_str(&mut r, suffix);
    r
}

/// The trimmed, percent-encoded word.
pub fn encoded_word(spell: &str) -> (r: String)
    ensures
        r@ == word_enc(spell@),
{
    let t = trim(spell);
    encode_path_segment(t.as_str())
}

/// The external pages for a word, with their names.
pub fn external_links(word: &str) -> (r: Vec<(&'static str, String)>)
    ensures
        link_views(r@) == external_links_spec(word@),
{
    let w = encoded_word(word);
    let mut r: Vec<(&'static str, String)> = Vec::new();
    r.push(("Wikipedia", url_with("https://en.wikipedia.org/wiki/", &w, "")));
    r.push(("Wiktionary", url_with("https://en.wiktionary.org/wiki/", &w, "")));
    r.push(("Wordnik", url_with("https://www.wordnik.com/words/", &w, "")));
    r.push(("M-W Learner's", url_with("https://learnersdictionary.com/definition/", &w, "")));
    r.push(("M-W Thesaurus", url_with("https://www.merriam-webster.com/thesaurus/", &w, "")));
    r.push(
        ("Cambridge", url_with("https://dictionary.cambridge.org/dictionary/english/", &w, "")),
    );
    r.push(("Etymonline", url_with("https://www.etymonline.com/word/", &w, "")));
    r.push(("Youdao", url_with("https://www.youdao.com/result?word=", &w, "&lang=en")));
    proof {
        reveal_strlit("");
        assert(link_views(r@) =~= external_links_spec(word@));
    }
    r
}

// ---------------------------------------------------------------------
// Table of contents
// ---------------------------------------------------------------------

/// A link to the section `id` when the body has an element with that id.
pub open spec fn toc_link_spec(body: Seq<char>, id: Seq<char>, label: Seq<char>) -> Seq<char> {
    if contains_spec(body, "id=\""@ + id + "\""@) {
        "<a href=\"#"@ + id + "\">"@ + label + "</a>"@
    } else {
        Seq::<char>::empty()
    }
}

/// Links to the known sections present in `body`, in render order.
pub open spec fn toc_links_spec(body: Seq<char>) -> Seq<char> {
    toc_link_spec(body, "llm"@, "🤖 LLM"@) + toc_link_spec(body, "ee"@, "🔤 EE"@) + toc_link_spec(
        body,
        "syn"@,
        "🔄 Syn/Ant"@,
    ) + toc_link_spec(body, "phrases"@, "🧩 Phrases"@) + toc_link_spec(body, "zh"@, "📕 中文"@)
        + toc_link_spec(body, "tags"@, "🔀 Tags"@) + toc_link_spec(body, "wiki"@, "📖 Wiki"@)
        + toc_link_spec(body, "etym"@, "🌱 Etym"@) + toc_link_spec(body, "pron"@, "🔊 Pron"@)
        + toc_link_spec(body, "urban"@, "🔥 Urban"@)
}

/// The table of contents: a `toc` nav with the links, or nothing when no
/// known section is present.
pub open spec fn toc_spec(body: Seq<char>) -> Seq<char> {
    let links = toc_links_spec(body);
    if links.len() == 0 {
        Seq::<char>::empty()
    } else {
        "<nav class=\"toc\">"@ + links + "</nav>"@
    }
}

fn push_toc_link(out: &mut String, body: &str, id: &str, label: &str)
    ensures
        final(out)@ == old(out)@ + toc_link_spec(body@, id@, label@),
{
    let mut needle = String::new();
    push_str(&mut needle, "id=\"");
    push_str(&mut needle, id);
    push_str(&mut needle, "\"");
    if contains(body, needle.as_str()) {
        push_str(out, "<a href=\"#");
        push_str(out, id);
        push_str(out, "\">");
        push_str(out, label);
        push_str(out, "</a>");
    } else {
        assert(out@ == out@ + Seq::<char>::empty());
    }
}

/// The table of contents for a card body.
pub fn build_toc(body: &str) -> (r: String)
    ensures
        r@ == toc_spec(body@),
{
    let mut links = String::new();
    push_toc_link(&mut links, body, "llm", "🤖 LLM");
    push_toc_link(&mut links, body, "ee", "🔤 EE");
    push_toc_link(&mut links, body, "syn", "🔄 Syn/Ant");
    push_toc_link(&mut links, body, "phrases", "🧩 Phrases");
    push_toc_link(&mut links, body, "zh", "📕 中文");
    push_toc_link(&mut links, body, "tags", "🔀 Tags");
    push_toc_link(&mut links, body, "wiki", "📖 Wiki");
    push_toc_link(&mut links, body, "etym", "🌱 Etym");
    push_toc_link(&mut links, body, "pron", "🔊 Pron");
    push_toc_link(&mut links, body, "urban", "🔥 Urban");
    assert(links@ == toc_links_spec(body@));
    if links.as_str().unicode_len() == 0 {
        String::new()
    } else {
        let mut r = String::new();
        push_str(&mut r, "<nav class=\"toc\">");
        push_str(&mut r, links.as_str());
        push_str(&mut r, "</nav>");
        r
    }
}


// ---------------------------------------------------------------------
// Generic pieces
// ---------------------------------------------------------------------

/// Each text, escaped, between `open` and `close`.
pub open spec fn wrapped_spec(xs: Seq<Seq<char>>, open: Seq<char>, close: Seq<char>) -> Seq<char>
    decreases xs.len(),
{
    if xs.len() == 0 {
        seq![]
    } else {
        wrapped_spec(xs.drop_last(), open, close) + open + esc_spec(xs.last()) + close
    }
}

/// Appends the first `n` texts of `xs`, each escaped between `open` and
/// `close`.
pub fn push_wrapped(out: &mut String, xs: &Vec<String>, n: usize, open: &str, close: &str)
    requires
        n <= xs@.len(),
    ensures
        final(out)@ == old(out)@ + wrapped_spec(views(xs@).take(n as int), open@, close@),
{
    let ghost start = out@;
    let mut i: usize = 0;
    while i < n
        invariant
            i <= n <= xs@.len(),
            out@ == start + wrapped_spec(views(xs@).take(i as int), open@, close@),
        decreases n - i,
    {
        assert(views(xs@).take((i + 1) as int).drop_last() == views(xs@).take(i as int));
        push_str(out, open);
        push_escaped(out, xs[i].as_str());
        push_str(out, close);
        i += 1;
    }
}

/// Appends all of `xs`, each escaped between `open` and `close`.
pub fn push_wrapped_all(out: &mut String, xs: &Vec<String>, open: &str, close: &str)
    ensures
        final(out)@ == old(out)@ + wrapped_spec(views(xs@), open@, close@),
{
    push_wrapped(out, xs, xs.len(), open, close);
    assert(views(xs@).take(xs@.len() as int) == views(xs@));
}

/// Appends `text` escaped and joined by `sep`.
pub fn push_escaped_join(out: &mut String, xs: &Vec<String>, sep: &str)
    ensures
        final(out)@ == old(out)@ + esc_spec(join_spec(views(xs@), sep@)),
{
    let mut j = String::new();
    push_joined(&mut j, xs, sep);
    push_escaped(out, j.as_str());
}

// ---------------------------------------------------------------------
// The language-model section
// ---------------------------------------------------------------------

/// Some example has a sentence.
pub open spec fn has_sentence(exs: Seq<LlmExample>) -> bool {
    exists|i: int| 0 <= i < exs.len() && #[trigger] exs[i].sentence@.len() > 0
}

pub open spec fn has_en(r: LlmResult) -> bool {
    r.english matches Some(e) && (e.definitions@.len() > 0 || has_sentence(e.examples@))
}

pub open spec fn has_tech(r: LlmResult) -> bool {
    r.tech matches Some(t) && t.is_tech_term && (t.domains@.len() > 0 || (t.explanation matches Some(
        e,
    ) && e@.len() > 0))
}

pub open spec fn has_zh(r: LlmResult) -> bool {
    r.chinese matches Some(c) && (c.translations@.len() > 0 || (c.usage_notes matches Some(u)
        && u@.len() > 0))
}

/// Display label of an example's register.
pub open spec fn scenario_label(s: Seq<char>) -> Seq<char> {
    if s == "internet"@ {
        "🌍 Internet"@
    } else if s == "software"@ {
        "💻 Software"@
    } else if s == "casual"@ {
        "💬 Casual"@
    } else if s == "office"@ {
        "🏢 Office"@
    } else if s == "email"@ {
        "✉️ Email"@
    } else if s == "slack"@ {
        "💬 Slack"@
    } else {
        s
    }
}

/// The examples that have a sentence, as list items.
pub open spec fn examples_html(exs: Seq<LlmExample>) -> Seq<char>
    decreases exs.len(),
{
    if exs.len() == 0 {
        seq![]
    } else {
        examples_html(exs.drop_last()) + if exs.last().sentence@.len() > 0 {
            "<li><span class=\"src\">"@ + esc_spec(scenario_label(exs.last().scenario@))
                + "</span> "@ + esc_spec(exs.last().sentence@) + "</li>"@
        } else {
            Seq::<char>::empty()
        }
    }
}

pub open spec fn en_html(e: LlmEnglish) -> Seq<char> {
    "<h3>📖 English meaning</h3>"@ + (if e.definitions@.len() > 0 {
        "<ol>"@ + wrapped_spec(views(e.definitions@), "<li>"@, "</li>"@) + "</ol>"@
    } else {
        Seq::<char>::empty()
    }) + (if has_sentence(e.examples@) {
        "<p><span class=\"src\">Examples by register</span></p><ul>"@ + examples_html(e.examples@)
            + "</ul>"@
    } else {
        Seq::<char>::empty()
    })
}

pub open spec fn tech_html(t: LlmTech) -> Seq<char> {
    "<h3>💻 Tech use</h3>"@ + (if t.domains@.len() > 0 {
        "<p><span class=\"src\">Used in:</span> "@ + esc_spec(join_spec(views(t.domains@), " · "@))
            + "</p>"@
    } else {
        Seq::<char>::empty()
    }) + match t.explanation {
        Some(p) => if trim_spec(p@).len() > 0 {
            "<p>"@ + esc_spec(p@) + "</p>"@
        } else {
            Seq::<char>::empty()
        },
        None => Seq::<char>::empty(),
    }
}

pub open spec fn zh_html(c: LlmChinese) -> Seq<char> {
    "<h3>🀄 Chinese</h3>"@ + (if c.translations@.len() > 0 {
        "<p>"@ + esc_spec(join_spec(views(c.translations@), "; "@)) + "</p>"@
    } else {
        Seq::<char>::empty()
    }) + match c.usage_notes {
        Some(u) => if u@.len() > 0 {
            "<p><span class=\"src\">用法:</span> "@ + esc_spec(u@) + "</p>"@
        } else {
            Seq::<char>::empty()
        },
        None => Seq::<char>::empty(),
    }
}

/// The inner HTML of the language-model section (the three sub-sections
/// that have content), empty when the answer has nothing usable.
pub open spec fn claude_inner_spec(r: LlmResult) -> Seq<char> {
    if !has_en(r) && !has_tech(r) && !has_zh(r) {
        Seq::<char>::empty()
    } else {
        (if has_en(r) {
            en_html(r.english->0)
        } else {
            Seq::<char>::empty()
        }) + (if has_tech(r) {
            tech_html(r.tech->0)
        } else {
            Seq::<char>::empty()
        }) + (if has_zh(r) {
            zh_html(r.chinese->0)
        } else {
            Seq::<char>::empty()
        })
    }
}

/// The section is empty exactly when the answer has no usable English,
/// tech or Chinese part.
pub proof fn lemma_claude_inner_empty_iff_nothing_usable(r: LlmResult)
    ensures
        claude_inner_spec(r).len() == 0 <==> (!has_en(r) && !has_tech(r) && !has_zh(r)),
{
    reveal_strlit("<h3>📖 English meaning</h3>");
    reveal_strlit("<h3>💻 Tech use</h3>");
    reveal_strlit("<h3>🀄 Chinese</h3>");
}

fn scenario_label_of(s: &str) -> (r: Option<&'static str>)
    ensures
        match r {
            Some(l) => l@ == scenario_label(s@),
            None => scenario_label(s@) == s@,
        },
{
    if str_eq(s, "internet") {
        Some("🌍 Internet")
    } else if str_eq(s, "software") {
        Some("💻 Software")
    } else if str_eq(s, "casual") {
        Some("💬 Casual")
    } else if str_eq(s, "office") {
        Some("🏢 Office")
    } else if str_eq(s, "email") {
        Some("✉️ Email")
    } else if str_eq(s, "slack") {
        Some("💬 Slack")
    } else {
        None
    }
}

fn any_sentence(exs: &Vec<LlmExample>) -> (r: bool)
    ensures
        r == has_sentence(exs@),
{
    let mut i: usize = 0;
    while i < exs.len()
        invariant
            i <= exs.len(),
            forall|k: int| 0 <= k < i ==> exs@[k].sentence@.len() == 0,
        decreases exs.len() - i,
    {
        if exs[i].sentence.as_str().unicode_len() > 0 {
            return true;
        }
        i += 1;
    }
    false
}

fn push_examples(out: &mut String, exs: &Vec<LlmExample>)
    ensures
        final(out)@ == old(out)@ + examples_html(exs@),
{
    let ghost start = out@;
    let mut i: usize = 0;
    while i < exs.len()
        invariant
            i <= exs.len(),
            out@ == start + examples_html(exs@.take(i as int)),
        decreases exs.len() - i,
    {
        assert(exs@.take((i + 1) as int).drop_last() == exs@.take(i as int));
        let ex = &exs[i];
        if ex.sentence.as_str().unicode_len() > 0 {
            push_str(out, "<li><span class=\"src\">");
            match scenario_label_of(ex.scenario.as_str()) {
                Some(l) => push_escaped(out, l),
                None => push_escaped(out, ex.scenario.as_str()),
            }
            push_str(out, "</span> ");
            push_escaped(out, ex.sentence.as_str());
            push_str(out, "</li>");
        } else {
            assert(out@ == out@ + Seq::<char>::empty());
        }
        i += 1;
    }
    assert(exs@.take(exs.len() as int) == exs@);
}

fn push_en(out: &mut String, e: &LlmEnglish)
    ensures
        final(out)@ == old(out)@ + en_html(*e),
{
    let ghost start = out@;
    push_str(out, "<h3>📖 English meaning</h3>");
    if e.definitions.len() > 0 {
        push_str(out, "<ol>");
        push_wrapped_all(out, &e.definitions, "<li>", "</li>");
        push_str(out, "</ol>");
    }
    if any_sentence(&e.examples) {
        push_str(out, "<p><span class=\"src\">Examples by register</span></p><ul>");
        push_examples(out, &e.examples);
        push_str(out, "</ul>");
    }
    assert(out@ == start + en_html(*e));
}

fn push_tech(out: &mut String, t: &LlmTech)
    ensures
        final(out)@ == old(out)@ + tech_html(*t),
{
    let ghost start = out@;
    push_str(out, "<h3>💻 Tech use</h3>");
    if t.domains.len() > 0 {
        push_str(out, "<p><span class=\"src\">Used in:</span> ");
        push_escaped_join(out, &t.domains, " · ");
        push_str(out, "</p>");
    }
    match &t.explanation {
        Some(p) => {
            let tp = trim(p.as_str());
            if tp.as_str().unicode_len() > 0 {
                push_str(out, "<p>");
                push_escaped(out, p.as_str());
                push_str(out, "</p>");
            }
        },
        None => {},
    }
    assert(out@ == start + tech_html(*t));
}

fn push_zh(out: &mut String, c: &LlmChinese)
    ensures
        final(out)@ == old(out)@ + zh_html(*c),
{
    let ghost start = out@;
    push_str(out, "<h3>🀄 Chinese</h3>");
    if c.translations.len() > 0 {
        push_str(out, "<p>");
        push_escaped_join(out, &c.translations, "; ");
        push_str(out, "</p>");
    }
    match &c.usage_notes {
        Some(u) => {
            if u.as_str().unicode_len() > 0 {
                push_str(out, "<p><span class=\"src\">用法:</span> ");
                push_escaped(out, u.as_str());
                push_str(out, "</p>");
            }
        },
        None => {},
    }
    assert(out@ == start + zh_html(*c));
}

/// The inner HTML of the language-model section, without the outer
/// `<section>`/`<h2>`; empty when the answer has nothing usable.
pub fn render_claude_inner(r: &LlmResult) -> (out: String)
    ensures
        out@ == claude_inner_spec(*r),
{
    let en = match &r.english {
        Some(e) => e.definitions.len() > 0 || any_sentence(&e.examples),
        None => false,
    };
    let tech = match &r.tech {
        Some(t) => t.is_tech_term && (t.domains.len() > 0 || match &t.explanation {
            Some(e) => e.as_str().unicode_len() > 0,
            None => false,
        }),
        None => false,
    };
    let zh = match &r.chinese {
        Some(c) => c.translations.len() > 0 || match &c.usage_notes {
            Some(u) => u.as_str().unicode_len() > 0,
            None => false,
        },
        None => false,
    };
    let mut body = String::new();
    if !en && !tech && !zh {
        return body;
    }
    match &r.english {
        Some(e) => {
            if en {
                push_en(&mut body, e);
            }
        },
        None => {},
    }
    let ghost a = body@;
    match &r.tech {
        Some(t) => {
            if tech {
                push_tech(&mut body, t);
            }
        },
        None => {},
    }
    match &r.chinese {
        Some(c) => {
            if zh {
                push_zh(&mut body, c);
            }
        },
        None => {},
    }
    assert(body@ == claude_inner_spec(*r));
    body
}


// ---------------------------------------------------------------------
// English-English
// ---------------------------------------------------------------------

/// A secondary source shows at most this many definitions.
pub const SECONDARY_CAP: usize = 5;

/// `<span class="meta">..</span>` around a text.
pub open spec fn meta_wrap(x: Seq<char>) -> Seq<char> {
    "<span class=\"meta\">"@ + esc_spec(x) + "</span>"@
}

/// The meta span of a non-empty optional text.
pub open spec fn meta_opt(x: Option<String>) -> Seq<char> {
    match x {
        Some(t) => if t@.len() > 0 {
            meta_wrap(t@)
        } else {
            Seq::<char>::empty()
        },
        None => Seq::<char>::empty(),
    }
}

/// The meta span of a part of speech, when there is one.
pub open spec fn pos_meta(pos: Seq<char>) -> Seq<char> {
    if pos.len() > 0 {
        meta_wrap(pos)
    } else {
        Seq::<char>::empty()
    }
}

/// Wordnik rows: the definition with markup stripped, then the meta.
pub open spec fn wordnik_items(ws: Seq<DictEntry>) -> Seq<char>
    decreases ws.len(),
{
    if ws.len() == 0 {
        seq![]
    } else {
        wordnik_items(ws.drop_last()) + "<li>"@ + esc_spec(strip_tags_spec(ws.last().definition@))
            + meta_opt(ws.last().extra) + "</li>"@
    }
}

/// Definition rows that share one part of speech.
pub open spec fn pos_items(defs: Seq<Seq<char>>, pos: Seq<char>) -> Seq<char>
    decreases defs.len(),
{
    if defs.len() == 0 {
        seq![]
    } else {
        pos_items(defs.drop_last(), pos) + "<li>"@ + esc_spec(defs.last()) + pos_meta(pos)
            + "</li>"@
    }
}

/// (part of speech, definition) pairs of all senses, in order.
pub open spec fn wk_pairs(senses: Seq<WkSense>) -> Seq<(Seq<char>, Seq<char>)>
    decreases senses.len(),
{
    if senses.len() == 0 {
        seq![]
    } else {
        wk_pairs(senses.drop_last()) + views(senses.last().definitions@).map_values(
            |d: Seq<char>| (senses.last().pos@, d),
        )
    }
}

/// Rows of (part of speech, definition) pairs.
pub open spec fn pair_items(ps: Seq<(Seq<char>, Seq<char>)>) -> Seq<char>
    decreases ps.len(),
{
    if ps.len() == 0 {
        seq![]
    } else {
        pair_items(ps.drop_last()) + "<li>"@ + esc_spec(ps.last().1) + pos_meta(ps.last().0)
            + "</li>"@
    }
}

/// The row saying how many more a capped source has.
pub open spec fn more_row(k: nat, name: Seq<char>) -> Seq<char> {
    "<li><span class=\"src\">… (+"@ + decimal_spec(k) + " more — click "@ + name
        + " above)</span></li>"@
}

/// The first `n` (at most the cap) and, when more exist, the count row.
pub open spec fn capped<A>(s: Seq<A>) -> Seq<A> {
    if s.len() <= SECONDARY_CAP {
        s
    } else {
        s.take(SECONDARY_CAP as int)
    }
}

pub open spec fn more_if_capped(total: nat, name: Seq<char>) -> Seq<char> {
    if total > SECONDARY_CAP {
        more_row((total - SECONDARY_CAP) as nat, name)
    } else {
        Seq::<char>::empty()
    }
}

/// A `<h3>` heading linking to a source page.
pub open spec fn source_h3(icon: Seq<char>, url: Seq<char>, name: Seq<char>) -> Seq<char> {
    "<h3>"@ + icon + " <a href=\""@ + esc_spec(url) + "\">"@ + name + " →</a></h3>"@
}

pub open spec fn opt_or_empty(o: Option<String>) -> Seq<char> {
    match o {
        Some(s) => s@,
        None => Seq::<char>::empty(),
    }
}

pub open spec fn has_ml(extra: CardSources) -> bool {
    extra.mw_learners matches Some(m) && m.short_defs@.len() > 0
}

pub open spec fn has_wk(extra: CardSources) -> bool {
    extra.wiktionary matches Some(w) && w.senses@.len() > 0
}

pub open spec fn has_yd_ee(extra: CardSources) -> bool {
    extra.youdao matches Some(y) && y.ee@.len() > 0
}

#[verifier::opaque]
pub open spec fn ee_wn_part(spell: Seq<char>, wordnik: Seq<DictEntry>) -> Seq<char> {
    if wordnik.len() > 0 {
        source_h3("📘"@, wordnik_url(spell), "Wordnik"@) + "<ol>"@ + wordnik_items(wordnik)
            + "</ol>"@
    } else {
        Seq::<char>::empty()
    }
}

#[verifier::opaque]
pub open spec fn ee_ml_part(spell: Seq<char>, extra: CardSources) -> Seq<char> {
    if has_ml(extra) {
        let m = extra.mw_learners->0;
        source_h3("📗"@, learners_url(spell), "M-W Learner's"@) + "<ol>"@ + pos_items(
            capped(views(m.short_defs@)),
            opt_or_empty(m.pos),
        ) + more_if_capped(m.short_defs@.len(), "M-W Learner's"@) + "</ol>"@
    } else {
        Seq::<char>::empty()
    }
}

#[verifier::opaque]
pub open spec fn ee_wk_part(spell: Seq<char>, extra: CardSources) -> Seq<char> {
    if has_wk(extra) {
        let w = extra.wiktionary->0;
        source_h3("📕"@, wiktionary_url(spell), "Wiktionary"@) + "<ol>"@ + pair_items(
            capped(wk_pairs(w.senses@)),
        ) + more_if_capped(wk_pairs(w.senses@).len(), "Wiktionary"@) + "</ol>"@
    } else {
        Seq::<char>::empty()
    }
}

#[verifier::opaque]
pub open spec fn ee_yd_part(spell: Seq<char>, extra: CardSources) -> Seq<char> {
    if has_yd_ee(extra) {
        source_h3("🌐"@, youdao_url(spell), "Youdao"@) + "<ol>"@ + wrapped_spec(
            views(extra.youdao->0.ee@),
            "<li>"@,
            "</li>"@,
        ) + "</ol>"@
    } else {
        Seq::<char>::empty()
    }
}

/// The English-English block: Wordnik in full, then M-W Learner's and
/// Wiktionary (each capped, with a count of the rest), then Youdao.
#[verifier::opaque]
pub open spec fn ee_section_spec(spell: Seq<char>, wordnik: Seq<DictEntry>, extra: CardSources) -> Seq<
    char,
> {
    if !(wordnik.len() > 0 || has_ml(extra) || has_wk(extra) || has_yd_ee(extra)) {
        Seq::<char>::empty()
    } else {
        "<section><h2 id=\"ee\">🔤 English-English</h2>"@ + ee_wn_part(spell, wordnik) + ee_ml_part(
            spell,
            extra,
        ) + ee_wk_part(spell, extra) + ee_yd_part(spell, extra) + "</section>"@
    }
}

fn push_source_h3(out: &mut String, icon: &str, url: &String, name: &str)
    ensures
        final(out)@ == old(out)@ + source_h3(icon@, url@, name@),
{
    push_str(out, "<h3>");
    push_str(out, icon);
    push_str(out, " <a href=\"");
    push_escaped(out, url.as_str());
    push_str(out, "\">");
    push_str(out, name);
    push_str(out, " →</a></h3>");
}

fn push_meta_opt(out: &mut String, x: &Option<String>)
    ensures
        final(out)@ == old(out)@ + meta_opt(*x),
{
    match x {
        Some(t) => {
            if t.as_str().unicode_len() > 0 {
                push_str(out, "<span class=\"meta\">");
                push_escaped(out, t.as_str());
                push_str(out, "</span>");
            } else {
                assert(out@ == out@ + Seq::<char>::empty());
            }
        },
        None => {
            assert(out@ == out@ + Seq::<char>::empty());
        },
    }
}

fn push_pos_meta(out: &mut String, pos: &str)
    ensures
        final(out)@ == old(out)@ + pos_meta(pos@),
{
    if pos.unicode_len() > 0 {
        push_str(out, "<span class=\"meta\">");
        push_escaped(out, pos);
        push_str(out, "</span>");
    } else {
        assert(out@ == out@ + Seq::<char>::empty());
    }
}

fn push_wordnik_items(out: &mut String, ws: &Vec<DictEntry>)
    ensures
        final(out)@ == old(out)@ + wordnik_items(ws@),
{
    let ghost start = out@;
    let mut i: usize = 0;
    while i < ws.len()
        invariant
            i <= ws.len(),
            out@ == start + wordnik_items(ws@.take(i as int)),
        decreases ws.len() - i,
    {
        assert(ws@.take((i + 1) as int).drop_last() == ws@.take(i as int));
        push_str(out, "<li>");
        let d = strip_tags(ws[i].definition.as_str());
        push_escaped(out, d.as_str());
        push_meta_opt(out, &ws[i].extra);
        push_str(out, "</li>");
        i += 1;
    }
    assert(ws@.take(ws.len() as int) == ws@);
}

fn push_pos_items(out: &mut String, defs: &Vec<String>, n: usize, pos: &str)
    requires
        n <= defs@.len(),
    ensures
        final(out)@ == old(out)@ + pos_items(views(defs@).take(n as int), pos@),
{
    let ghost start = out@;
    let mut i: usize = 0;
    while i < n
        invariant
            i <= n <= defs@.len(),
            out@ == start + pos_items(views(defs@).take(i as int), pos@),
        decreases n - i,
    {
        assert(views(defs@).take((i + 1) as int).drop_last() == views(defs@).take(i as int));
        push_str(out, "<li>");
        push_escaped(out, defs[i].as_str());
        push_pos_meta(out, pos);
        push_str(out, "</li>");
        i += 1;
    }
}

fn push_more_if_capped(out: &mut String, total: usize, name: &str)
    ensures
        final(out)@ == old(out)@ + more_if_capped(total as nat, name@),
{
    if total > SECONDARY_CAP {
        push_str(out, "<li><span class=\"src\">… (+");
        push_u64(out, (total - SECONDARY_CAP) as u64);
        push_str(out, " more — click ");
        push_str(out, name);
        push_str(out, " above)</span></li>");
    } else {
        assert(out@ == out@ + Seq::<char>::empty());
    }
}

/// All (part of speech, definition) pairs of the senses.
fn flat_pairs(senses: &Vec<WkSense>) -> (r: Vec<(String, String)>)
    ensures
        r@.map_values(|p: (String, String)| (p.0@, p.1@)) == wk_pairs(senses@),
{
    let mut r: Vec<(String, String)> = Vec::new();
    let mut i: usize = 0;
    while i < senses.len()
        invariant
            i <= senses.len(),
            r@.map_values(|p: (String, String)| (p.0@, p.1@)) == wk_pairs(senses@.take(i as int)),
        decreases senses.len() - i,
    {
        assert(senses@.take((i + 1) as int).drop_last() == senses@.take(i as int));
        let s = &senses[i];
        let ghost before = r@;
        let mut k: usize = 0;
        while k < s.definitions.len()
            invariant
                k <= s.definitions.len(),
                r@.len() == before.len() + k,
                r@.map_values(|p: (String, String)| (p.0@, p.1@)) == before.map_values(
                    |p: (String, String)| (p.0@, p.1@),
                ) + views(s.definitions@).take(k as int).map_values(|d: Seq<char>| (s.pos@, d)),
            decreases s.definitions.len() - k,
        {
            let ghost prev = r@;
            r.push((s.pos.clone(), s.definitions[k].clone()));
            assert(views(s.definitions@).take((k + 1) as int) == views(s.definitions@).take(
                k as int,
            ).push(s.definitions@[k as int]@));
            assert(r@.map_values(|p: (String, String)| (p.0@, p.1@)) == prev.map_values(
                |p: (String, String)| (p.0@, p.1@),
            ).push((s.pos@, s.definitions@[k as int]@)));
            k += 1;
        }
        assert(views(s.definitions@).take(s.definitions.len() as int) == views(s.definitions@));
        i += 1;
    }
    assert(senses@.take(senses.len() as int) == senses@);
    r
}

fn push_pair_items(out: &mut String, ps: &Vec<(String, String)>, n: usize)
    requires
        n <= ps@.len(),
    ensures
        final(out)@ == old(out)@ + pair_items(
            ps@.map_values(|p: (String, String)| (p.0@, p.1@)).take(n as int),
        ),
{
    let ghost start = out@;
    let ghost pv = ps@.map_values(|p: (String, String)| (p.0@, p.1@));
    let mut i: usize = 0;
    while i < n
        invariant
            i <= n <= ps@.len(),
            pv == ps@.map_values(|p: (String, String)| (p.0@, p.1@)),
            out@ == start + pair_items(pv.take(i as int)),
        decreases n - i,
    {
        assert(pv.take((i + 1) as int).drop_last() == pv.take(i as int));
        push_str(out, "<li>");
        push_escaped(out, ps[i].1.as_str());
        push_pos_meta(out, ps[i].0.as_str());
        push_str(out, "</li>");
        i += 1;
    }
}

fn opt_string(o: &Option<String>) -> (r: String)
    ensures
        r@ == opt_or_empty(*o),
{
    match o {
        Some(s) => s.clone(),
        None => String::new(),
    }
}

fn cap(n: usize) -> (r: usize)
    ensures
        r == if n <= SECONDARY_CAP {
            n
        } else {
            SECONDARY_CAP
        },
{
    if n <= SECONDARY_CAP {
        n
    } else {
        SECONDARY_CAP
    }
}

fn push_ee_wn(out: &mut String, enc: &String, spell: &str, wordnik: &Vec<DictEntry>)
    requires
        enc@ == word_enc(spell@),
    ensures
        final(out)@ == old(out)@ + ee_wn_part(spell@, wordnik@),
{
    reveal(ee_wn_part);
    let ghost start = out@;
    if wordnik.len() > 0 {
        let u = url_with("https://www.wordnik.com/words/", enc, "");
        proof {
            reveal_strlit("");
        }
        push_source_h3(out, "📘", &u, "Wordnik");
        push_str(out, "<ol>");
        push_wordnik_items(out, wordnik);
        push_str(out, "</ol>");
    }
    assert(out@ == start + ee_wn_part(spell@, wordnik@));
}

fn push_ee_ml(out: &mut String, enc: &String, spell: &str, extra: &CardSources)
    requires
        enc@ == word_enc(spell@),
    ensures
        final(out)@ == old(out)@ + ee_ml_part(spell@, *extra),
{
    reveal(ee_ml_part);
    let ghost start = out@;
    match &extra.mw_learners {
        Some(m) => {
            if m.short_defs.len() > 0 {
                let u = url_with("https://learnersdictionary.com/definition/", enc, "");
                proof {
                    reveal_strlit("");
                }
                push_source_h3(out, "📗", &u, "M-W Learner's");
                push_str(out, "<ol>");
                let pos = opt_string(&m.pos);
                let n = cap(m.short_defs.len());
                push_pos_items(out, &m.short_defs, n, pos.as_str());
                assert(views(m.short_defs@).take(n as int) == capped(views(m.short_defs@)));
                push_more_if_capped(out, m.short_defs.len(), "M-W Learner's");
                push_str(out, "</ol>");
            }
        },
        None => {},
    }
    assert(out@ == start + ee_ml_part(spell@, *extra));
}

fn push_ee_wk(out: &mut String, enc: &String, spell: &str, extra: &CardSources)
    requires
        enc@ == word_enc(spell@),
    ensures
        final(out)@ == old(out)@ + ee_wk_part(spell@, *extra),
{
    reveal(ee_wk_part);
    let ghost start = out@;
    match &extra.wiktionary {
        Some(w) => {
            if w.senses.len() > 0 {
                let u = url_with("https://en.wiktionary.org/wiki/", enc, "");
                proof {
                    reveal_strlit("");
                }
                push_source_h3(out, "📕", &u, "Wiktionary");
                push_str(out, "<ol>");
                let pairs = flat_pairs(&w.senses);
                let n = cap(pairs.len());
                push_pair_items(out, &pairs, n);
                assert(pairs@.map_values(|p: (String, String)| (p.0@, p.1@)).take(n as int)
                    == capped(wk_pairs(w.senses@)));
                assert(pairs@.map_values(|p: (String, String)| (p.0@, p.1@)).len() == pairs@.len());
                push_more_if_capped(out, pairs.len(), "Wiktionary");
                push_str(out, "</ol>");
            }
        },
        None => {},
    }
    assert(out@ == start + ee_wk_part(spell@, *extra));
}

fn push_ee_yd(out: &mut String, enc: &String, spell: &str, extra: &CardSources)
    requires
        enc@ == word_enc(spell@),
    ensures
        final(out)@ == old(out)@ + ee_yd_part(spell@, *extra),
{
    reveal(ee_yd_part);
    let ghost start = out@;
    match &extra.youdao {
        Some(y) => {
            if y.ee.len() > 0 {
                let u = url_with("https://www.youdao.com/result?word=", enc, "&lang=en");
                push_source_h3(out, "🌐", &u, "Youdao");
                push_str(out, "<ol>");
                push_wrapped_all(out, &y.ee, "<li>", "</li>");
                push_str(out, "</ol>");
            }
        },
        None => {},
    }
    assert(out@ == start + ee_yd_part(spell@, *extra));
}

fn push_ee_section(out: &mut String, spell: &str, wordnik: &Vec<DictEntry>, extra: &CardSources)
    ensures
        final(out)@ == old(out)@ + ee_section_spec(spell@, wordnik@, *extra),
{
    reveal(ee_section_spec);
    let ghost start = out@;
    let has_wn = wordnik.len() > 0;
    let ml = match &extra.mw_learners {
        Some(m) => m.short_defs.len() > 0,
        None => false,
    };
    let wk = match &extra.wiktionary {
        Some(w) => w.senses.len() > 0,
        None => false,
    };
    let yd = match &extra.youdao {
        Some(y) => y.ee.len() > 0,
        None => false,
    };
    if !(has_wn || ml || wk || yd) {
        assert(out@ == start + Seq::<char>::empty());
        return;
    }
    let enc = encoded_word(spell);
    push_str(out, "<section><h2 id=\"ee\">🔤 English-English</h2>");
    push_ee_wn(out, &enc, spell, wordnik);
    push_ee_ml(out, &enc, spell, extra);
    push_ee_wk(out, &enc, spell, extra);
    push_ee_yd(out, &enc, spell, extra);
    push_str(out, "</section>");
    assert(out@ == start + ee_section_spec(spell@, wordnik@, *extra));
}


// ---------------------------------------------------------------------
// Synonyms / antonyms / related
// ---------------------------------------------------------------------

/// A `<h4>` heading linking to a source page.
pub open spec fn source_h4(icon: Seq<char>, url: Seq<char>, name: Seq<char>) -> Seq<char> {
    "<h4>"@ + icon + " <a href=\""@ + esc_spec(url) + "\">"@ + name + " →</a></h4>"@
}

/// Label of a thesaurus group: `sense <i+1> (<size>)` when there are
/// several groups, `(<size>)` otherwise.
pub open spec fn group_label(i: nat, n: nat, m: nat) -> Seq<char> {
    if n > 1 {
        "sense "@ + decimal_spec(i + 1) + " ("@ + decimal_spec(m) + ")"@
    } else {
        "("@ + decimal_spec(m) + ")"@
    }
}

/// A labelled row of words.
pub open spec fn sense_row(label: Seq<char>, words: Seq<Seq<char>>) -> Seq<char> {
    "<p class=\"sense-row\"><span class=\"src\">"@ + esc_spec(label) + ":</span><span>"@ + esc_spec(
        join_spec(words, ", "@),
    ) + "</span></p>"@
}

/// The rows of the first `k` groups; empty groups are skipped but keep
/// their number.
pub open spec fn group_rows(gs: Seq<Vec<String>>, k: nat) -> Seq<char>
    decreases k,
{
    if k == 0 || k > gs.len() {
        seq![]
    } else {
        group_rows(gs, (k - 1) as nat) + if gs[k - 1]@.len() > 0 {
            sense_row(group_label((k - 1) as nat, gs.len(), gs[k - 1]@.len()), views(gs[k - 1]@))
        } else {
            Seq::<char>::empty()
        }
    }
}

/// The thesaurus groups under their source heading.
pub open spec fn mw_groups_part(spell: Seq<char>, gs: Seq<Vec<String>>) -> Seq<char> {
    if gs.len() > 0 {
        source_h4("📘"@, thesaurus_url(spell), "M-W Thesaurus"@) + group_rows(gs, gs.len())
    } else {
        Seq::<char>::empty()
    }
}

/// A Datamuse word list under its heading.
pub open spec fn dm_part(xs: Seq<Seq<char>>) -> Seq<char> {
    if xs.len() > 0 {
        "<h4>🎯 Datamuse</h4>"@ + sense_row("("@ + decimal_spec(xs.len()) + ")"@, xs)
    } else {
        Seq::<char>::empty()
    }
}

/// Youdao lines under their heading, one paragraph each.
pub open spec fn yd_lines_part(spell: Seq<char>, lines: Seq<Seq<char>>) -> Seq<char> {
    if lines.len() > 0 {
        source_h4("🌐"@, youdao_url(spell), "Youdao"@) + wrapped_spec(lines, "<p>"@, "</p>"@)
    } else {
        Seq::<char>::empty()
    }
}

pub open spec fn mw_syn_groups(extra: CardSources) -> Seq<Vec<String>> {
    match extra.mw_thesaurus {
        Some(t) => t.synonym_groups@,
        None => seq![],
    }
}

pub open spec fn mw_ant_groups(extra: CardSources) -> Seq<Vec<String>> {
    match extra.mw_thesaurus {
        Some(t) => t.antonym_groups@,
        None => seq![],
    }
}

pub open spec fn dm_syns(extra: CardSources) -> Seq<Seq<char>> {
    match extra.datamuse {
        Some(d) => views(d.synonyms@),
        None => seq![],
    }
}

pub open spec fn dm_ants(extra: CardSources) -> Seq<Seq<char>> {
    match extra.datamuse {
        Some(d) => views(d.antonyms@),
        None => seq![],
    }
}

pub open spec fn dm_rels(extra: CardSources) -> Seq<Seq<char>> {
    match extra.datamuse {
        Some(d) => views(d.related@),
        None => seq![],
    }
}

pub open spec fn yd_syno(extra: CardSources) -> Seq<Seq<char>> {
    match extra.youdao {
        Some(y) => views(y.syno@),
        None => seq![],
    }
}

pub open spec fn yd_rel(extra: CardSources) -> Seq<Seq<char>> {
    match extra.youdao {
        Some(y) => views(y.rel_word@),
        None => seq![],
    }
}

#[verifier::opaque]
pub open spec fn syn_block(spell: Seq<char>, extra: CardSources) -> Seq<char> {
    if mw_syn_groups(extra).len() > 0 || dm_syns(extra).len() > 0 || yd_syno(extra).len() > 0 {
        "<h3>Synonyms</h3>"@ + mw_groups_part(spell, mw_syn_groups(extra)) + dm_part(
            dm_syns(extra),
        ) + yd_lines_part(spell, yd_syno(extra))
    } else {
        Seq::<char>::empty()
    }
}

#[verifier::opaque]
pub open spec fn ant_block(spell: Seq<char>, extra: CardSources) -> Seq<char> {
    if mw_ant_groups(extra).len() > 0 || dm_ants(extra).len() > 0 {
        "<h3>Antonyms</h3>"@ + mw_groups_part(spell, mw_ant_groups(extra)) + dm_part(
            dm_ants(extra),
        )
    } else {
        Seq::<char>::empty()
    }
}

#[verifier::opaque]
pub open spec fn rel_block(spell: Seq<char>, extra: CardSources) -> Seq<char> {
    if dm_rels(extra).len() > 0 || yd_rel(extra).len() > 0 {
        "<h3>Related</h3>"@ + dm_part(dm_rels(extra)) + yd_lines_part(spell, yd_rel(extra))
    } else {
        Seq::<char>::empty()
    }
}

/// Each item of a wrapped list stands in it, escaped, between the
/// opening and the closing text.
pub proof fn lemma_wrapped_holds_each(xs: Seq<Seq<char>>, open: Seq<char>, close: Seq<char>, i: int)
    requires
        0 <= i < xs.len(),
    ensures
        contains_spec(wrapped_spec(xs, open, close), open + esc_spec(xs[i]) + close),
    decreases xs.len(),
{
    let item = open + esc_spec(xs[i]) + close;
    let front = wrapped_spec(xs.drop_last(), open, close);
    let tail = open + esc_spec(xs.last()) + close;
    let e = Seq::<char>::empty();
    assert(wrapped_spec(xs, open, close) == front + open + esc_spec(xs.last()) + close);
    assert(front + open + esc_spec(xs.last()) + close =~= front + tail + e);
    assert(front + tail + e =~= e + front + tail);
    if i == xs.len() - 1 {
        lemma_contains_self(item);
        lemma_contains_within(front, item, e, item);
    } else {
        lemma_wrapped_holds_each(xs.drop_last(), open, close, i);
        assert(xs.drop_last()[i] == xs[i]);
        lemma_contains_within(e, front, tail, item);
    }
}

/// Youdao's synonym lines stand in the card's Synonyms block and its
/// related words in the Related block, each as a paragraph of its own;
/// the blocks open with their headings.
pub proof fn lemma_youdao_lines_in_their_blocks(spell: Seq<char>, extra: CardSources, i: int)
    requires
        extra.youdao is Some,
    ensures
        syn_block(spell, extra).len() > 0 ==> syn_block(spell, extra).take(
            "<h3>Synonyms</h3>"@.len() as int,
        ) == "<h3>Synonyms</h3>"@,
        rel_block(spell, extra).len() > 0 ==> rel_block(spell, extra).take(
            "<h3>Related</h3>"@.len() as int,
        ) == "<h3>Related</h3>"@,
        0 <= i < extra.youdao->0.syno@.len() ==> contains_spec(
            syn_block(spell, extra),
            "<p>"@ + esc_spec(extra.youdao->0.syno@[i]@) + "</p>"@,
        ),
        0 <= i < extra.youdao->0.rel_word@.len() ==> contains_spec(
            rel_block(spell, extra),
            "<p>"@ + esc_spec(extra.youdao->0.rel_word@[i]@) + "</p>"@,
        ),
{
    reveal(syn_block);
    reveal(rel_block);
    let y = extra.youdao->0;
    let syn = syn_block(spell, extra);
    let rel = rel_block(spell, extra);
    if syn.len() > 0 {
        assert(syn.take("<h3>Synonyms</h3>"@.len() as int) =~= "<h3>Synonyms</h3>"@);
    }
    if rel.len() > 0 {
        assert(rel.take("<h3>Related</h3>"@.len() as int) =~= "<h3>Related</h3>"@);
    }
    if 0 <= i < y.syno@.len() {
        let lines = yd_syno(extra);
        assert(lines[i] == y.syno@[i]@);
        let item = "<p>"@ + esc_spec(lines[i]) + "</p>"@;
        lemma_wrapped_holds_each(lines, "<p>"@, "</p>"@, i);
        let h = source_h4("🌐"@, youdao_url(spell), "Youdao"@);
        lemma_contains_within(h, wrapped_spec(lines, "<p>"@, "</p>"@), Seq::<char>::empty(), item);
        assert(yd_lines_part(spell, lines) =~= h + wrapped_spec(lines, "<p>"@, "</p>"@)
            + Seq::<char>::empty());
        let front = "<h3>Synonyms</h3>"@ + mw_groups_part(spell, mw_syn_groups(extra)) + dm_part(
            dm_syns(extra),
        );
        lemma_contains_within(front, yd_lines_part(spell, lines), Seq::<char>::empty(), item);
        assert(syn =~= front + yd_lines_part(spell, lines) + Seq::<char>::empty());
    }
    if 0 <= i < y.rel_word@.len() {
        let lines = yd_rel(extra);
        assert(lines[i] == y.rel_word@[i]@);
        let item = "<p>"@ + esc_spec(lines[i]) + "</p>"@;
        lemma_wrapped_holds_each(lines, "<p>"@, "</p>"@, i);
        let h = source_h4("🌐"@, youdao_url(spell), "Youdao"@);
        lemma_contains_within(h, wrapped_spec(lines, "<p>"@, "</p>"@), Seq::<char>::empty(), item);
        assert(yd_lines_part(spell, lines) =~= h + wrapped_spec(lines, "<p>"@, "</p>"@)
            + Seq::<char>::empty());
        let front = "<h3>Related</h3>"@ + dm_part(dm_rels(extra));
        lemma_contains_within(front, yd_lines_part(spell, lines), Seq::<char>::empty(), item);
        assert(rel =~= front + yd_lines_part(spell, lines) + Seq::<char>::empty());
    }
}

/// The synonyms / antonyms / related block: every source on its own
/// labelled line, the thesaurus one line per sense group.
#[verifier::opaque]
pub open spec fn syn_section_spec(spell: Seq<char>, extra: CardSources) -> Seq<char> {
    if mw_syn_groups(extra).len() > 0 || mw_ant_groups(extra).len() > 0 || dm_syns(extra).len() > 0
        || dm_ants(extra).len() > 0 || dm_rels(extra).len() > 0 || yd_syno(extra).len() > 0
        || yd_rel(extra).len() > 0 {
        "<section><h2 id=\"syn\">🔄 Synonyms / Antonyms / Related</h2>"@ + syn_block(spell, extra)
            + ant_block(spell, extra) + rel_block(spell, extra) + "</section>"@
    } else {
        Seq::<char>::empty()
    }
}

fn push_source_h4(out: &mut String, icon: &str, url: &String, name: &str)
    ensures
        final(out)@ == old(out)@ + source_h4(icon@, url@, name@),
{
    push_str(out, "<h4>");
    push_str(out, icon);
    push_str(out, " <a href=\"");
    push_escaped(out, url.as_str());
    push_str(out, "\">");
    push_str(out, name);
    push_str(out, " →</a></h4>");
}

fn push_sense_row(out: &mut String, label: &String, words: &Vec<String>)
    ensures
        final(out)@ == old(out)@ + sense_row(label@, views(words@)),
{
    push_str(out, "<p class=\"sense-row\"><span class=\"src\">");
    push_escaped(out, label.as_str());
    push_str(out, ":</span><span>");
    push_escaped_join(out, words, ", ");
    push_str(out, "</span></p>");
}

fn push_group_rows(out: &mut String, gs: &Vec<Vec<String>>)
    ensures
        final(out)@ == old(out)@ + group_rows(gs@, gs@.len()),
{
    let ghost start = out@;
    let n = gs.len();
    let mut k: usize = 0;
    while k < n
        invariant
            k <= n == gs@.len(),
            out@ == start + group_rows(gs@, k as nat),
        decreases n - k,
    {
        let g = &gs[k];
        if g.len() > 0 {
            let mut label = String::new();
            if n > 1 {
                push_str(&mut label, "sense ");
                push_u64(&mut label, (k + 1) as u64);
                push_str(&mut label, " (");
                push_u64(&mut label, g.len() as u64);
                push_str(&mut label, ")");
            } else {
                push_str(&mut label, "(");
                push_u64(&mut label, g.len() as u64);
                push_str(&mut label, ")");
            }
            push_sense_row(out, &label, g);
        } else {
            assert(out@ == out@ + Seq::<char>::empty());
        }
        k += 1;
    }
}

fn push_mw_groups(out: &mut String, enc: &String, spell: &str, gs: &Vec<Vec<String>>)
    requires
        enc@ == word_enc(spell@),
    ensures
        final(out)@ == old(out)@ + mw_groups_part(spell@, gs@),
{
    if gs.len() > 0 {
        let u = url_with("https://www.merriam-webster.com/thesaurus/", enc, "");
        proof {
            reveal_strlit("");
        }
        push_source_h4(out, "📘", &u, "M-W Thesaurus");
        push_group_rows(out, gs);
    } else {
        assert(out@ == out@ + Seq::<char>::empty());
    }
}

fn push_dm(out: &mut String, xs: &Vec<String>)
    ensures
        final(out)@ == old(out)@ + dm_part(views(xs@)),
{
    if xs.len() > 0 {
        push_str(out, "<h4>🎯 Datamuse</h4>");
        let mut label = String::new();
        push_str(&mut label, "(");
        push_u64(&mut label, xs.len() as u64);
        push_str(&mut label, ")");
        push_sense_row(out, &label, xs);
    } else {
        assert(out@ == out@ + Seq::<char>::empty());
    }
}

fn push_yd_lines(out: &mut String, enc: &String, spell: &str, lines: &Vec<String>)
    requires
        enc@ == word_enc(spell@),
    ensures
        final(out)@ == old(out)@ + yd_lines_part(spell@, views(lines@)),
{
    if lines.len() > 0 {
        let u = url_with("https://www.youdao.com/result?word=", enc, "&lang=en");
        push_source_h4(out, "🌐", &u, "Youdao");
        push_wrapped_all(out, lines, "<p>", "</p>");
    } else {
        assert(out@ == out@ + Seq::<char>::empty());
    }
}

fn empty_groups() -> (r: Vec<Vec<String>>)
    ensures
        r@.len() == 0,
{
    Vec::new()
}

fn empty_strings() -> (r: Vec<String>)
    ensures
        r@.len() == 0,
{
    Vec::new()
}

fn push_syn_block(out: &mut String, enc: &String, spell: &str, extra: &CardSources)
    requires
        enc@ == word_enc(spell@),
    ensures
        final(out)@ == old(out)@ + syn_block(spell@, *extra),
{
    reveal(syn_block);
    let ghost start = out@;
    let none_g = empty_groups();
    let none_s = empty_strings();
    let gs = match &extra.mw_thesaurus {
        Some(t) => &t.synonym_groups,
        None => &none_g,
    };
    let dm = match &extra.datamuse {
        Some(d) => &d.synonyms,
        None => &none_s,
    };
    let yd = match &extra.youdao {
        Some(y) => &y.syno,
        None => &none_s,
    };
    assert(gs@ == mw_syn_groups(*extra));
    assert(views(dm@) == dm_syns(*extra));
    assert(views(yd@) == yd_syno(*extra));
    if gs.len() > 0 || dm.len() > 0 || yd.len() > 0 {
        push_str(out, "<h3>Synonyms</h3>");
        push_mw_groups(out, enc, spell, gs);
        push_dm(out, dm);
        push_yd_lines(out, enc, spell, yd);
    }
    assert(out@ == start + syn_block(spell@, *extra));
}

fn push_ant_block(out: &mut String, enc: &String, spell: &str, extra: &CardSources)
    requires
        enc@ == word_enc(spell@),
    ensures
        final(out)@ == old(out)@ + ant_block(spell@, *extra),
{
    reveal(ant_block);
    let ghost start = out@;
    let none_g = empty_groups();
    let none_s = empty_strings();
    let gs = match &extra.mw_thesaurus {
        Some(t) => &t.antonym_groups,
        None => &none_g,
    };
    let dm = match &extra.datamuse {
        Some(d) => &d.antonyms,
        None => &none_s,
    };
    assert(gs@ == mw_ant_groups(*extra));
    assert(views(dm@) == dm_ants(*extra));
    if gs.len() > 0 || dm.len() > 0 {
        push_str(out, "<h3>Antonyms</h3>");
        push_mw_groups(out, enc, spell, gs);
        push_dm(out, dm);
    }
    assert(out@ == start + ant_block(spell@, *extra));
}

fn push_rel_block(out: &mut String, enc: &String, spell: &str, extra: &CardSources)
    requires
        enc@ == word_enc(spell@),
    ensures
        final(out)@ == old(out)@ + rel_block(spell@, *extra),
{
    reveal(rel_block);
    let ghost start = out@;
    let none_s = empty_strings();
    let dm = match &extra.datamuse {
        Some(d) => &d.related,
        None => &none_s,
    };
    let yd = match &extra.youdao {
        Some(y) => &y.rel_word,
        None => &none_s,
    };
    assert(views(dm@) == dm_rels(*extra));
    assert(views(yd@) == yd_rel(*extra));
    if dm.len() > 0 || yd.len() > 0 {
        push_str(out, "<h3>Related</h3>");
        push_dm(out, dm);
        push_yd_lines(out, enc, spell, yd);
    }
    assert(out@ == start + rel_block(spell@, *extra));
}

fn push_syn_section(out: &mut String, spell: &str, extra: &CardSources)
    ensures
        final(out)@ == old(out)@ + syn_section_spec(spell@, *extra),
{
    reveal(syn_section_spec);
    let ghost start = out@;
    let any = match &extra.mw_thesaurus {
        Some(t) => t.synonym_groups.len() > 0 || t.antonym_groups.len() > 0,
        None => false,
    } || match &extra.datamuse {
        Some(d) => d.synonyms.len() > 0 || d.antonyms.len() > 0 || d.related.len() > 0,
        None => false,
    } || match &extra.youdao {
        Some(y) => y.syno.len() > 0 || y.rel_word.len() > 0,
        None => false,
    };
    if !any {
        assert(out@ == start + Seq::<char>::empty());
        return;
    }
    let enc = encoded_word(spell);
    push_str(out, "<section><h2 id=\"syn\">🔄 Synonyms / Antonyms / Related</h2>");
    push_syn_block(out, &enc, spell, extra);
    push_ant_block(out, &enc, spell, extra);
    push_rel_block(out, &enc, spell, extra);
    push_str(out, "</section>");
    assert(out@ == start + syn_section_spec(spell@, *extra));
}

} // verus!
