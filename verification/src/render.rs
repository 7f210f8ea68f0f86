//! The rows of the Alfred list: one per source entry, the configuration
//! hint for a missing key, and the retry row of a failed source.
use vstd::prelude::*;
use crate::text::{
    char_count, int_decimal_spec, join, join_spec, owned, push_i64, push_repeated, push_str,
    replace, replace_char, replace_char_spec, replace_spec, repeat_spec, take_chars,
    take_chars_spec, views,
};
use crate::dictionary::{nonempty_field, StardictEntry};
use crate::llm::response::{LlmExample, LlmResult};
use crate::sources::{opt_view, DictEntry, SourceKind, URBAN_EXAMPLE_SEP};

verus! {

/// Where the README explains how to configure the API keys.
pub const README_CONFIG_URL: &'static str = "https://github.com/hanleylee/alfred-eudic-workflow#%E5%AE%89%E8%A3%85";

/// A subtitle longer than this many characters is cut.
pub const MAX_SUBTITLE_CHARS: usize = 220;

/// One row of the Alfred list. The title and the subtitle each have a
/// main text and an aside shown aligned to its right (empty for none).
#[derive(Debug, Clone)]
pub struct Row {
    pub title: String,
    pub title_aside: String,
    pub subtitle: Option<String>,
    pub subtitle_aside: String,
    /// What Enter hands on.
    pub arg: Option<String>,
    /// The subtitle shown while ⌘ is held.
    pub cmd_subtitle: Option<String>,
    /// The subtitle shown while ⌥ is held.
    pub alt_subtitle: Option<String>,
    /// Workflow variables set when the row is chosen.
    pub variables: Vec<(String, String)>,
    /// The page shown by Quick Look.
    pub quicklookurl: Option<String>,
}

/// Mathematical form of a [`Row`].
pub struct RowView {
    pub title: Seq<char>,
    pub title_aside: Seq<char>,
    pub subtitle: Option<Seq<char>>,
    pub subtitle_aside: Seq<char>,
    pub arg: Option<Seq<char>>,
    pub cmd_subtitle: Option<Seq<char>>,
    pub alt_subtitle: Option<Seq<char>>,
    pub variables: Seq<(Seq<char>, Seq<char>)>,
    pub quicklookurl: Option<Seq<char>>,
}

pub open spec fn pair_views(v: Seq<(String, String)>) -> Seq<(Seq<char>, Seq<char>)> {
    v.map_values(|p: (String, String)| (p.0@, p.1@))
}

impl View for Row {
    type V = RowView;

    open spec fn view(&self) -> RowView {
        RowView {
            title: self.title@,
            title_aside: self.title_aside@,
            subtitle: opt_view(self.subtitle),
            subtitle_aside: self.subtitle_aside@,
            arg: opt_view(self.arg),
            cmd_subtitle: opt_view(self.cmd_subtitle),
            alt_subtitle: opt_view(self.alt_subtitle),
            variables: pair_views(self.variables@),
            quicklookurl: opt_view(self.quicklookurl),
        }
    }
}

pub open spec fn row_views(rs: Seq<Row>) -> Seq<RowView> {
    rs.map_values(|r: Row| r@)
}

/// A row with only a title.
pub open spec fn title_row(title: Seq<char>) -> RowView {
    RowView {
        title,
        title_aside: seq![],
        subtitle: None,
        subtitle_aside: seq![],
        arg: None,
        cmd_subtitle: None,
        alt_subtitle: None,
        variables: seq![],
        quicklookurl: None,
    }
}

impl Row {
    /// A row with only a title.
    pub fn new(title: String) -> (r: Row)
        ensures
            r@ == title_row(title@),
    {
        let row = Row {
            title,
            title_aside: String::new(),
            subtitle: None,
            subtitle_aside: String::new(),
            arg: None,
            cmd_subtitle: None,
            alt_subtitle: None,
            variables: Vec::new(),
            quicklookurl: None,
        };
        assert(pair_views(row.variables@) =~= Seq::<(Seq<char>, Seq<char>)>::empty());
        row
    }
}

/// The text cut to the subtitle limit, with `…` when something was cut.
pub open spec fn truncate_spec(s: Seq<char>) -> Seq<char> {
    if s.len() <= MAX_SUBTITLE_CHARS {
        s
    } else {
        s.take(MAX_SUBTITLE_CHARS as int) + "…"@
    }
}

/// Cuts a subtitle to [`MAX_SUBTITLE_CHARS`] characters, marking the cut
/// with `…`.
pub fn truncate(s: &str) -> (r: String)
    ensures
        r@ == truncate_spec(s@),
{
    if char_count(s) <= MAX_SUBTITLE_CHARS {
        return owned(s);
    }
    let mut head = take_chars(s, MAX_SUBTITLE_CHARS);
    assert(take_chars_spec(s@, MAX_SUBTITLE_CHARS as nat) == s@.take(MAX_SUBTITLE_CHARS as int));
    push_str(&mut head, "…");
    head
}

/// A main text with an aside aligned to its right: the text alone when
/// there is no aside, else the text, four spaces and the aside.
pub open spec fn aligned_spec(text: Seq<char>, aside: Seq<char>) -> Seq<char> {
    if aside.len() == 0 {
        text
    } else {
        text + "    "@ + aside
    }
}

/// One line of a title or subtitle with its aside.
pub fn aligned_text(text: &str, aside: &str) -> (r: String)
    ensures
        r@ == aligned_spec(text@, aside@),
{
    let mut r = owned(text);
    if aside.unicode_len() > 0 {
        push_str(&mut r, "    ");
        push_str(&mut r, aside);
    }
    r
}

pub open spec fn source_emoji_spec(kind: SourceKind) -> Seq<char> {
    match kind {
        SourceKind::Urban => "🔥"@,
        SourceKind::Wordnik => "📘"@,
    }
}

/// The emoji that marks a source's first row.
pub fn source_emoji(kind: SourceKind) -> (r: &'static str)
    ensures
        r@ == source_emoji_spec(kind),
{
    match kind {
        SourceKind::Urban => "🔥",
        SourceKind::Wordnik => "📘",
    }
}

pub open spec fn or_empty(o: Option<Seq<char>>) -> Seq<char> {
    match o {
        Some(s) => s,
        None => seq![],
    }
}

/// A definition as the list shows it: an Urban Dictionary example
/// separator reads `  e.g. ` there.
pub open spec fn list_text_spec(kind: SourceKind, def: Seq<char>) -> Seq<char> {
    match kind {
        SourceKind::Urban => replace_spec(def, URBAN_EXAMPLE_SEP@, "  e.g. "@),
        SourceKind::Wordnik => def,
    }
}

fn list_text(kind: SourceKind, def: &str) -> (r: String)
    ensures
        r@ == list_text_spec(kind, def@),
{
    match kind {
        SourceKind::Urban => {
            proof {
                reveal_strlit("\u{1e}");
            }
            replace(def, URBAN_EXAMPLE_SEP, "  e.g. ")
        },
        SourceKind::Wordnik => owned(def),
    }
}

/// The row of entry `i` of a source: the first row carries the source's
/// emoji; ⌘ shows the whole definition, ⌥ the entry's metadata.
pub open spec fn dict_row(e: DictEntry, i: int, kind: SourceKind) -> RowView {
    RowView {
        title: (if i == 0 {
            source_emoji_spec(kind)
        } else {
            "  "@
        }) + " "@ + e.headword@,
        title_aside: seq![],
        subtitle: Some(truncate_spec(list_text_spec(kind, e.definition@))),
        subtitle_aside: or_empty(opt_view(e.extra)),
        arg: Some(e.headword@),
        cmd_subtitle: Some(list_text_spec(kind, e.definition@)),
        alt_subtitle: Some(or_empty(opt_view(e.extra))),
        variables: seq![],
        quicklookurl: None,
    }
}

fn opt_or_empty(o: &Option<String>) -> (r: String)
    ensures
        r@ == or_empty(opt_view(*o)),
{
    match o {
        Some(s) => s.clone(),
        None => String::new(),
    }
}

/// The rows of a source's entries.
pub fn render_dict(entries: &Vec<DictEntry>, kind: SourceKind) -> (r: Vec<Row>)
    ensures
        r@.len() == entries@.len(),
        forall|i: int| 0 <= i < r@.len() ==> #[trigger] r@[i]@ == dict_row(entries@[i], i, kind),
{
    let mut r: Vec<Row> = Vec::new();
    let mut i: usize = 0;
    while i < entries.len()
        invariant
            i <= entries.len(),
            r@.len() == i,
            forall|k: int| 0 <= k < i ==> #[trigger] r@[k]@ == dict_row(entries@[k], k, kind),
        decreases entries.len() - i,
    {
        let e = &entries[i];
        let mut title = String::new();
        if i == 0 {
            push_str(&mut title, source_emoji(kind));
        } else {
            push_str(&mut title, "  ");
        }
        push_str(&mut title, " ");
        push_str(&mut title, e.headword.as_str());
        let text = list_text(kind, e.definition.as_str());
        let row = Row {
            title,
            title_aside: String::new(),
            subtitle: Some(truncate(text.as_str())),
            subtitle_aside: opt_or_empty(&e.extra),
            arg: Some(e.headword.clone()),
            cmd_subtitle: Some(text),
            alt_subtitle: Some(opt_or_empty(&e.extra)),
            variables: Vec::new(),
            quicklookurl: None,
        };
        assert(row.variables@ == Seq::<(String, String)>::empty());
        assert(pair_views(row.variables@) =~= Seq::<(Seq<char>, Seq<char>)>::empty());
        r.push(row);
        i += 1;
    }
    r
}

// ---------------------------------------------------------------------
// The language model's row
// ---------------------------------------------------------------------

/// The Chinese translations of an answer.
pub open spec fn llm_translations(r: LlmResult) -> Seq<Seq<char>> {
    match r.chinese {
        Some(c) => views(c.translations@),
        None => seq![],
    }
}

/// Index of the first example with a sentence, at or after `i`.
pub open spec fn first_sentence_from(exs: Seq<LlmExample>, i: int) -> Option<Seq<char>>
    decreases exs.len() - i,
{
    if i < 0 || i >= exs.len() {
        None
    } else if exs[i].sentence@.len() > 0 {
        Some(exs[i].sentence@)
    } else {
        first_sentence_from(exs, i + 1)
    }
}

/// The example sentence shown with the translations: the first English
/// example that has a sentence.
pub open spec fn llm_example(r: LlmResult) -> Option<Seq<char>> {
    match r.english {
        Some(e) => first_sentence_from(e.examples@, 0),
        None => None,
    }
}

/// The language model's row: its translations joined by `；`, with the
/// example beside them; none when there is no translation.
pub open spec fn llm_rows(r: LlmResult, spell: Seq<char>) -> Seq<RowView> {
    let ts = llm_translations(r);
    if ts.len() == 0 {
        seq![]
    } else {
        let joined = join_spec(ts, "；"@);
        seq![
            RowView {
                title: "🤖 "@ + spell,
                title_aside: seq![],
                subtitle: Some(joined),
                subtitle_aside: or_empty(llm_example(r)),
                arg: Some(spell),
                cmd_subtitle: Some(joined),
                alt_subtitle: llm_example(r),
                variables: seq![],
                quicklookurl: None,
            },
        ]
    }
}

fn first_sentence(exs: &Vec<LlmExample>) -> (r: Option<String>)
    ensures
        opt_view(r) == first_sentence_from(exs@, 0),
{
    let mut i: usize = 0;
    while i < exs.len()
        invariant
            i <= exs.len(),
            first_sentence_from(exs@, 0) == first_sentence_from(exs@, i as int),
        decreases exs.len() - i,
    {
        if exs[i].sentence.as_str().unicode_len() > 0 {
            return Some(exs[i].sentence.clone());
        }
        i += 1;
    }
    None
}

/// The list row of a language-model answer.
pub fn render_llm(result: &LlmResult, spell: &str) -> (r: Vec<Row>)
    ensures
        row_views(r@) == llm_rows(*result, spell@),
{
    let none: Vec<String> = Vec::new();
    let ts = match &result.chinese {
        Some(c) => &c.translations,
        None => &none,
    };
    assert(views(ts@) == llm_translations(*result));
    if ts.len() == 0 {
        let r: Vec<Row> = Vec::new();
        assert(row_views(r@) =~= llm_rows(*result, spell@));
        return r;
    }
    let example = match &result.english {
        Some(e) => first_sentence(&e.examples),
        None => None,
    };
    let joined = join(ts, "；");
    let mut title = String::new();
    push_str(&mut title, "🤖 ");
    push_str(&mut title, spell);
    let row = Row {
        title,
        title_aside: String::new(),
        subtitle: Some(joined.clone()),
        subtitle_aside: opt_or_empty(&example),
        arg: Some(owned(spell)),
        cmd_subtitle: Some(joined),
        alt_subtitle: example,
        variables: Vec::new(),
        quicklookurl: None,
    };
    assert(pair_views(row.variables@) =~= Seq::<(Seq<char>, Seq<char>)>::empty());
    let mut r: Vec<Row> = Vec::new();
    r.push(row);
    assert(row_views(r@) =~= llm_rows(*result, spell@));
    r
}

// ---------------------------------------------------------------------
// ECDICT rows
// ---------------------------------------------------------------------

/// The entry's Chinese text (translation, else definition) on one line.
pub open spec fn explanation_spec(e: StardictEntry) -> Seq<char> {
    match e.translation {
        Some(t) => replace_char_spec(t@, '\n', "; "@),
        None => match e.definition {
            Some(d) => replace_char_spec(d@, '\n', "; "@),
            None => seq![],
        },
    }
}

/// One star per Collins point.
pub open spec fn stars(n: nat) -> Seq<char> {
    repeat_spec("⭐️"@, n)
}

/// The importance notes of an entry: Collins stars, Oxford 3000, BNC and
/// COCA ranks when non-zero, exam tags.
pub open spec fn importance_spec(e: StardictEntry) -> Seq<Seq<char>> {
    (match e.collins {
        Some(c) => seq!["COLLINS: "@ + stars(c as nat)],
        None => seq![],
    }) + (if e.oxford is Some {
        seq!["OXFORD 3000"@]
    } else {
        seq![]
    }) + (match e.bnc {
        Some(b) => if b != 0 {
            seq!["BNC: "@ + int_decimal_spec(b as int)]
        } else {
            seq![]
        },
        None => seq![],
    }) + (match e.frq {
        Some(f) => if f != 0 {
            seq!["COCA: "@ + int_decimal_spec(f as int)]
        } else {
            seq![]
        },
        None => seq![],
    }) + (match nonempty_field(e.tag) {
        Some(t) => seq![t],
        None => seq![],
    })
}

/// The row of ECDICT entry `i`: word and Collins stars, the explanation
/// and phonetic; ⌘ shows the inflections, ⌥ the importance notes.
pub open spec fn ecdict_row(e: StardictEntry, i: int) -> RowView {
    RowView {
        title: (if i == 0 {
            "📕"@
        } else {
            "  "@
        }) + " "@ + e.word@,
        title_aside: stars(
            match e.collins {
                Some(c) => c as nat,
                None => 0,
            },
        ),
        subtitle: Some(truncate_spec(explanation_spec(e))),
        subtitle_aside: or_empty(opt_view(e.phonetic)),
        arg: Some(e.word@),
        cmd_subtitle: Some(or_empty(nonempty_field(e.exchange))),
        alt_subtitle: Some(join_spec(importance_spec(e), "; "@)),
        variables: seq![],
        quicklookurl: None,
    }
}

/// An ECDICT row explains the word by its translation, newlines turned
/// into `; `; an entry without a translation falls back to its
/// definition, so the row is blank only when the entry has neither.
pub proof fn lemma_ecdict_row_explains_word(e: StardictEntry, i: int)
    ensures
        e.translation matches Some(t) ==> ecdict_row(e, i).subtitle == Some(
            truncate_spec(replace_char_spec(t@, '\n', "; "@)),
        ),
        e.translation is None ==> (e.definition matches Some(d) ==> ecdict_row(e, i).subtitle
            == Some(truncate_spec(replace_char_spec(d@, '\n', "; "@)))),
        e.translation is None && e.definition is None ==> ecdict_row(e, i).subtitle == Some(
            Seq::<char>::empty(),
        ),
{
}

fn explanation(e: &StardictEntry) -> (r: String)
    ensures
        r@ == explanation_spec(*e),
{
    match &e.translation {
        Some(t) => replace_char(t.as_str(), '\n', "; "),
        None => match &e.definition {
            Some(d) => replace_char(d.as_str(), '\n', "; "),
            None => String::new(),
        },
    }
}

fn importance(e: &StardictEntry) -> (r: Vec<String>)
    ensures
        views(r@) == importance_spec(*e),
{
    let mut r: Vec<String> = Vec::new();
    match e.collins {
        Some(c) => {
            let mut s = String::new();
            push_str(&mut s, "COLLINS: ");
            push_repeated(&mut s, "⭐️", c as usize);
            r.push(s);
        },
        None => {},
    }
    if e.oxford.is_some() {
        r.push(owned("OXFORD 3000"));
    }
    match e.bnc {
        Some(n) => {
            if n != 0 {
                let mut s = String::new();
                push_str(&mut s, "BNC: ");
                push_i64(&mut s, n);
                r.push(s);
            }
        },
        None => {},
    }
    match e.frq {
        Some(n) => {
            if n != 0 {
                let mut s = String::new();
                push_str(&mut s, "COCA: ");
                push_i64(&mut s, n);
                r.push(s);
            }
        },
        None => {},
    }
    match e.tag_info() {
        Some(t) => r.push(t),
        None => {},
    }
    assert(views(r@) =~= importance_spec(*e));
    r
}

/// The row of ECDICT entry `i` of the matches.
pub fn render_ecdict_row(e: &StardictEntry, i: usize) -> (r: Row)
    ensures
        r@ == ecdict_row(*e, i as int),
{
    let mut title = String::new();
    if i == 0 {
        push_str(&mut title, "📕");
    } else {
        push_str(&mut title, "  ");
    }
    push_str(&mut title, " ");
    push_str(&mut title, e.word.as_str());
    let mut aside = String::new();
    let n: u32 = match e.collins {
        Some(c) => c,
        None => 0,
    };
    push_repeated(&mut aside, "⭐️", n as usize);
    let ex = explanation(e);
    let notes = importance(e);
    let cmd = match e.exchange_info() {
        Some(s) => s,
        None => String::new(),
    };
    let row = Row {
        title,
        title_aside: aside,
        subtitle: Some(truncate(ex.as_str())),
        subtitle_aside: opt_or_empty(&e.phonetic),
        arg: Some(e.word.clone()),
        cmd_subtitle: Some(cmd),
        alt_subtitle: Some(join(&notes, "; ")),
        variables: Vec::new(),
        quicklookurl: None,
    };
    assert(pair_views(row.variables@) =~= Seq::<(Seq<char>, Seq<char>)>::empty());
    row
}

/// The rows of ECDICT entries, the best match first.
pub fn render_ecdict(entries: &Vec<StardictEntry>) -> (r: Vec<Row>)
    ensures
        r@.len() == entries@.len(),
        forall|i: int| 0 <= i < r@.len() ==> #[trigger] r@[i]@ == ecdict_row(entries@[i], i),
{
    let mut r: Vec<Row> = Vec::new();
    let mut i: usize = 0;
    while i < entries.len()
        invariant
            i <= entries.len(),
            r@.len() == i,
            forall|k: int| 0 <= k < i ==> #[trigger] r@[k]@ == ecdict_row(entries@[k], k),
        decreases entries.len() - i,
    {
        r.push(render_ecdict_row(&entries[i], i));
        i += 1;
    }
    r
}

// ---------------------------------------------------------------------
// Configuration and error rows
// ---------------------------------------------------------------------

/// The row telling that a source has no API key, leading to the README.
pub open spec fn no_api_key_row(name: Seq<char>) -> RowView {
    RowView {
        title: "⚙️ "@ + name + " 未配置 API key"@,
        title_aside: seq![],
        subtitle: Some("回车查看配置说明"@),
        subtitle_aside: seq![],
        arg: Some(README_CONFIG_URL@),
        cmd_subtitle: None,
        alt_subtitle: None,
        variables: seq![],
        quicklookurl: None,
    }
}

/// The row of a failed source; choosing it retries with the cache
/// bypassed (`BYPASS_CACHE=1`).
pub open spec fn error_row(name: Seq<char>, msg: Seq<char>, spell: Seq<char>) -> RowView {
    RowView {
        title: "⚠️ "@ + name + ": "@ + msg,
        title_aside: seq![],
        subtitle: Some("回车重试（绕过缓存）"@),
        subtitle_aside: seq![],
        arg: Some(spell),
        cmd_subtitle: None,
        alt_subtitle: None,
        variables: seq![("BYPASS_CACHE"@, "1"@)],
        quicklookurl: None,
    }
}

pub fn render_no_api_key(source_name: &str) -> (r: Row)
    ensures
        r@ == no_api_key_row(source_name@),
{
    let mut title = String::new();
    push_str(&mut title, "⚙️ ");
    push_str(&mut title, source_name);
    push_str(&mut title, " 未配置 API key");
    let row = Row {
        title,
        title_aside: String::new(),
        subtitle: Some(owned("回车查看配置说明")),
        subtitle_aside: String::new(),
        arg: Some(owned(README_CONFIG_URL)),
        cmd_subtitle: None,
        alt_subtitle: None,
        variables: Vec::new(),
        quicklookurl: None,
    };
    assert(pair_views(row.variables@) =~= Seq::<(Seq<char>, Seq<char>)>::empty());
    row
}

pub fn render_error(source_name: &str, err_msg: &str, spell: &str) -> (r: Row)
    ensures
        r@ == error_row(source_name@, err_msg@, spell@),
{
    let mut title = String::new();
    push_str(&mut title, "⚠️ ");
    push_str(&mut title, source_name);
    push_str(&mut title, ": ");
    push_str(&mut title, err_msg);
    let mut vars: Vec<(String, String)> = Vec::new();
    vars.push((owned("BYPASS_CACHE"), owned("1")));
    let row = Row {
        title,
        title_aside: String::new(),
        subtitle: Some(owned("回车重试（绕过缓存）")),
        subtitle_aside: String::new(),
        arg: Some(owned(spell)),
        cmd_subtitle: None,
        alt_subtitle: None,
        variables: vars,
        quicklookurl: None,
    };
    assert(pair_views(row.variables@) =~= seq![("BYPASS_CACHE"@, "1"@)]);
    row
}

} // verus!
