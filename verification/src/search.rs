//! The decisions of one search: how the query is read, when the cache is
//! bypassed, whether the language model runs or is awaited in the
//! background, and which rows the Alfred list shows in which order.
use vstd::prelude::*;
use crate::text::{
    chars_of, owned, str_eq, string_of_range, trim, trim_spec,
};
use crate::dictionary::StardictEntry;
use crate::llm::LlmError;
use crate::llm::response::LlmResult;
use crate::render::{
    dict_row, ecdict_row, error_row, llm_rows, no_api_key_row, render_dict, render_ecdict_row,
    render_error, render_llm, render_no_api_key, row_views, title_row, Row, RowView,
};
use crate::sources::{opt_view, source_error_text, DictEntry, SourceError, SourceKind};
use crate::llm::llm_error_text;

verus! {

/// Words longer than this many characters are not sent to the model.
pub const MAX_LLM_SPELL_LEN: usize = 50;

/// A typed query: the word, and whether it began with the `!` that asks
/// for fresh data.
pub struct Query {
    pub spell: String,
    pub bypass_prefix: bool,
}

/// The trimmed query starts with `!`.
pub open spec fn has_bang(raw: Seq<char>) -> bool {
    trim_spec(raw).len() > 0 && trim_spec(raw)[0] == '!'
}

/// The word of a query: trimmed, one leading `!` dropped, trimmed again.
pub open spec fn query_spell(raw: Seq<char>) -> Seq<char> {
    let t = trim_spec(raw);
    trim_spec(
        if has_bang(raw) {
            t.drop_first()
        } else {
            t
        },
    )
}

/// Reads a typed query.
pub fn parse_query(raw: &str) -> (r: Query)
    ensures
        r.spell@ == query_spell(raw@),
        r.bypass_prefix == has_bang(raw@),
{
    let t = trim(raw);
    let v = chars_of(t.as_str());
    let bang = v.len() > 0 && v[0] == '!';
    let rest = if bang {
        let s = string_of_range(&v, 1, v.len());
        assert(v@.subrange(1, v@.len() as int) == v@.drop_first());
        s
    } else {
        t
    };
    Query { spell: trim(rest.as_str()), bypass_prefix: bang }
}

/// At most one byte of UTF-8: empty, or a single ASCII character.
pub open spec fn too_short_spec(spell: Seq<char>) -> bool {
    spell.len() == 0 || (spell.len() == 1 && (spell[0] as u32) < 128)
}

/// A word of at most one byte is not looked up ("Input more than one
/// letter").
pub fn too_short(spell: &str) -> (r: bool)
    ensures
        r == too_short_spec(spell@),
{
    let v = chars_of(spell);
    v.len() == 0 || (v.len() == 1 && (v[0] as u32) < 128)
}

/// The row shown instead of results for a too-short query.
pub fn too_short_row() -> (r: Row)
    ensures
        r@ == title_row("Input more than one letter"@),
{
    Row::new(owned("Input more than one letter"))
}

/// The cache is bypassed when the query began with `!` or the workflow
/// variable `BYPASS_CACHE` is `1` (set by the retry row of a failure).
pub open spec fn bypass_spec(bypass_prefix: bool, env_value: Option<Seq<char>>) -> bool {
    bypass_prefix || env_value == Some("1"@)
}

pub fn bypass_cache(bypass_prefix: bool, env_value: &Option<String>) -> (r: bool)
    ensures
        r == bypass_spec(bypass_prefix, opt_view(*env_value)),
{
    if bypass_prefix {
        return true;
    }
    match env_value {
        Some(v) => str_eq(v.as_str(), "1"),
        None => false,
    }
}

/// Choosing the retry row of a failed source sets the variable that
/// makes the next search bypass the cache.
pub proof fn lemma_retry_row_bypasses_cache(name: Seq<char>, msg: Seq<char>, spell: Seq<char>)
    ensures
        error_row(name, msg, spell).variables.len() == 1,
        error_row(name, msg, spell).variables[0].0 == "BYPASS_CACHE"@,
        bypass_spec(false, Some(error_row(name, msg, spell).variables[0].1)),
{
}

/// The model is asked for words of at most [`MAX_LLM_SPELL_LEN`]
/// characters, and only with an API key.
pub open spec fn llm_should_run_spec(spell: Seq<char>, api_key: Seq<char>) -> bool {
    spell.len() <= MAX_LLM_SPELL_LEN && api_key.len() > 0
}

pub fn llm_should_run(spell: &str, api_key: &str) -> (r: bool)
    ensures
        r == llm_should_run_spec(spell@, api_key@),
{
    spell.unicode_len() <= MAX_LLM_SPELL_LEN && api_key.unicode_len() > 0
}

/// The model's stored answer is read only when it should run and the
/// cache is not bypassed.
pub fn reads_llm_cache(should_run: bool, bypass: bool) -> (r: bool)
    ensures
        r == (should_run && !bypass),
{
    should_run && !bypass
}

/// The model is awaited in the background when it should run and no
/// stored answer was found: the card then shows a placeholder.
pub fn llm_loading(should_run: bool, cached: &Option<LlmResult>) -> (r: bool)
    ensures
        r == (should_run && cached is None),
{
    should_run && cached.is_none()
}

/// What the list shows for the model: a stored answer; the missing-key
/// hint for a short enough word without a key; otherwise nothing (the
/// list never waits for the model).
pub open spec fn llm_outcome_spec(
    cached: Option<LlmResult>,
    spell: Seq<char>,
    api_key: Seq<char>,
) -> Option<Result<LlmResult, LlmError>> {
    match cached {
        Some(c) => Some(Ok(c)),
        None => if spell.len() <= MAX_LLM_SPELL_LEN && api_key.len() == 0 {
            Some(Err(LlmError::NoApiKey))
        } else {
            None
        },
    }
}

pub fn llm_outcome(cached: Option<LlmResult>, spell: &str, api_key: &str) -> (r: Option<
    Result<LlmResult, LlmError>,
>)
    ensures
        r == llm_outcome_spec(cached, spell@, api_key@),
{
    match cached {
        Some(c) => Some(Ok(c)),
        None => if spell.unicode_len() <= MAX_LLM_SPELL_LEN && api_key.unicode_len() == 0 {
            Some(Err(LlmError::NoApiKey))
        } else {
            None
        },
    }
}

/// While the model is awaited in the background the list has no row for
/// it, and the card's placeholder stands in.
pub proof fn lemma_loading_has_no_list_row(
    cached: Option<LlmResult>,
    spell: Seq<char>,
    api_key: Seq<char>,
)
    requires
        llm_should_run_spec(spell, api_key),
        cached is None,
    ensures
        llm_outcome_spec(cached, spell, api_key) is None,
{
}

/// The ECDICT database is searched only when a non-empty path is
/// configured; the app also checks that the file exists.
pub fn db_path(db_file: &Option<String>) -> (r: Option<String>)
    ensures
        match r {
            Some(p) => *db_file == Some(p) && p@.len() > 0,
            None => db_file is None || db_file->0@.len() == 0,
        },
{
    match db_file {
        Some(p) => if p.as_str().unicode_len() > 0 {
            Some(p.clone())
        } else {
            None
        },
        None => None,
    }
}

// ---------------------------------------------------------------------
// The list
// ---------------------------------------------------------------------

/// The rows of one inline-list source: nothing for no entries, its best
/// entry, the missing-key hint, or the retry row of a failure.
pub open spec fn source_rows_spec(
    name: Seq<char>,
    kind: SourceKind,
    res: Result<Vec<DictEntry>, SourceError>,
    spell: Seq<char>,
) -> Seq<RowView> {
    match res {
        Ok(v) => if v@.len() == 0 {
            seq![]
        } else {
            seq![dict_row(v@[0], 0, kind)]
        },
        Err(SourceError::NoApiKey) => seq![no_api_key_row(name)],
        Err(e) => seq![error_row(name, source_error_text(e), spell)],
    }
}

pub fn source_rows(
    name: &str,
    kind: SourceKind,
    res: Result<Vec<DictEntry>, SourceError>,
    spell: &str,
) -> (r: Vec<Row>)
    ensures
        row_views(r@) == source_rows_spec(name@, kind, res, spell@),
{
    let ghost res0 = res;
    let mut r: Vec<Row> = Vec::new();
    match res {
        Ok(v) => {
            if v.len() > 0 {
                let mut v = v;
                v.truncate(1);
                let rows = render_dict(&v, kind);
                assert(rows@.len() == 1);
                r = rows;
            }
        },
        Err(SourceError::NoApiKey) => {
            r.push(render_no_api_key(name));
        },
        Err(e) => {
            let m = e.message();
            r.push(render_error(name, m.as_str(), spell));
        },
    }
    assert(row_views(r@) =~= source_rows_spec(name@, kind, res0, spell@));
    r
}

/// The model's rows: its answer, the missing-key hint, or a retry row.
pub open spec fn llm_list_rows(outcome: Option<Result<LlmResult, LlmError>>, spell: Seq<char>) -> Seq<
    RowView,
> {
    match outcome {
        Some(Ok(r)) => llm_rows(r, spell),
        Some(Err(LlmError::NoApiKey)) => seq![no_api_key_row("LLM"@)],
        Some(Err(e)) => seq![error_row("LLM"@, llm_error_text(e), spell)],
        None => seq![],
    }
}

fn llm_list(outcome: Option<Result<LlmResult, LlmError>>, spell: &str) -> (r: Vec<Row>)
    ensures
        row_views(r@) == llm_list_rows(outcome, spell@),
{
    let ghost o = outcome;
    let mut r: Vec<Row> = Vec::new();
    match outcome {
        Some(Ok(res)) => {
            r = render_llm(&res, spell);
        },
        Some(Err(LlmError::NoApiKey)) => {
            r.push(render_no_api_key("LLM"));
        },
        Some(Err(e)) => {
            let m = e.message();
            r.push(render_error("LLM", m.as_str(), spell));
        },
        None => {},
    }
    assert(row_views(r@) =~= llm_list_rows(o, spell@));
    r
}

/// The first row: the word itself, which Enter looks up in Eudic.
pub open spec fn fallback_row(spell: Seq<char>) -> RowView {
    RowView {
        title: spell,
        title_aside: seq![],
        subtitle: Some("Type enter to check in Eudic"@),
        subtitle_aside: seq![],
        arg: Some(spell),
        cmd_subtitle: None,
        alt_subtitle: None,
        variables: seq![],
        quicklookurl: None,
    }
}

/// The ECDICT rows of entries `from..to`.
pub open spec fn ecdict_rows(es: Seq<StardictEntry>, from: int, to: int) -> Seq<RowView> {
    Seq::new((to - from) as nat, |k: int| ecdict_row(es[from + k], from + k))
}

/// The list before the card is attached: the fallback row, ECDICT's
/// best match, Wordnik, Urban, the model, then ECDICT's other matches.
pub open spec fn base_rows(
    spell: Seq<char>,
    ecdict: Seq<StardictEntry>,
    wordnik: Result<Vec<DictEntry>, SourceError>,
    urban: Result<Vec<DictEntry>, SourceError>,
    llm: Option<Result<LlmResult, LlmError>>,
) -> Seq<RowView> {
    let first = if ecdict.len() > 0 {
        1int
    } else {
        0int
    };
    seq![fallback_row(spell)] + ecdict_rows(ecdict, 0, first) + source_rows_spec(
        "Wordnik"@,
        SourceKind::Wordnik,
        wordnik,
        spell,
    ) + source_rows_spec("Urban"@, SourceKind::Urban, urban, spell) + llm_list_rows(llm, spell)
        + ecdict_rows(ecdict, first, ecdict.len() as int)
}

/// A row with the card attached: Quick Look shows the card, and every row
/// but the first opens it on Enter.
pub open spec fn with_card(r: RowView, card: Seq<char>, keep_arg: bool) -> RowView {
    RowView {
        title: r.title,
        title_aside: r.title_aside,
        subtitle: r.subtitle,
        subtitle_aside: r.subtitle_aside,
        arg: if keep_arg {
            r.arg
        } else {
            Some(card)
        },
        cmd_subtitle: r.cmd_subtitle,
        alt_subtitle: r.alt_subtitle,
        variables: r.variables,
        quicklookurl: Some(card),
    }
}

/// The rows with the card attached, when there is one.
pub open spec fn attach_card(rows: Seq<RowView>, card: Option<Seq<char>>) -> Seq<RowView> {
    match card {
        Some(c) => Seq::new(rows.len(), |i: int| with_card(rows[i], c, i == 0)),
        None => rows,
    }
}

fn push_all(out: &mut Vec<Row>, rows: Vec<Row>)
    ensures
        row_views(final(out)@) == row_views(old(out)@) + row_views(rows@),
{
    let mut rows = rows;
    let ghost o = out@;
    let ghost rs = rows@;
    out.append(&mut rows);
    assert(row_views(out@) =~= row_views(o) + row_views(rs));
}

fn attach(rows: &mut Vec<Row>, card: &Option<String>)
    ensures
        row_views(final(rows)@) == attach_card(
            row_views(old(rows)@),
            match *card {
                Some(c) => Some(c@),
                None => None,
            },
        ),
{
    let ghost start = row_views(rows@);
    match card {
        Some(c) => {
            let n = rows.len();
            let mut i: usize = 0;
            while i < n
                invariant
                    i <= n == rows@.len() == start.len(),
                    forall|k: int| 0 <= k < i ==> #[trigger] rows@[k]@ == with_card(start[k], c@, k == 0),
                    forall|k: int| i <= k < n ==> #[trigger] rows@[k]@ == start[k],
                decreases n - i,
            {
                let ghost before = rows@;
                assert(before[i as int]@ == start[i as int]);
                let mut row = rows.remove(i);
                assert(row@ == start[i as int]);
                row.quicklookurl = Some(c.clone());
                if i != 0 {
                    row.arg = Some(c.clone());
                }
                assert(row@ == with_card(start[i as int], c@, i == 0));
                rows.insert(i, row);
                assert(rows@ =~= before.update(i as int, row));
                i += 1;
            }
            assert(row_views(rows@) =~= attach_card(start, Some(c@)));
        },
        None => {},
    }
}

/// The rows of the Alfred list, in order, with the card attached.
pub fn list_rows(
    spell: &str,
    ecdict: &Vec<StardictEntry>,
    wordnik: Result<Vec<DictEntry>, SourceError>,
    urban: Result<Vec<DictEntry>, SourceError>,
    llm: Option<Result<LlmResult, LlmError>>,
    card: &Option<String>,
) -> (r: Vec<Row>)
    ensures
        row_views(r@) == attach_card(
            base_rows(spell@, ecdict@, wordnik, urban, llm),
            match *card {
                Some(c) => Some(c@),
                None => None,
            },
        ),
{
    let ghost (w0, u0, l0) = (wordnik, urban, llm);
    let mut rows: Vec<Row> = Vec::new();
    let fb = Row {
        title: owned(spell),
        title_aside: String::new(),
        subtitle: Some(owned("Type enter to check in Eudic")),
        subtitle_aside: String::new(),
        arg: Some(owned(spell)),
        cmd_subtitle: None,
        alt_subtitle: None,
        variables: Vec::new(),
        quicklookurl: None,
    };
    assert(crate::render::pair_views(fb.variables@) =~= Seq::<(Seq<char>, Seq<char>)>::empty());
    rows.push(fb);
    let first: usize = if ecdict.len() > 0 {
        1
    } else {
        0
    };
    if first == 1 {
        rows.push(render_ecdict_row(&ecdict[0], 0));
    }
    let ghost a = row_views(rows@);
    assert(a =~= seq![fallback_row(spell@)] + ecdict_rows(ecdict@, 0, first as int));
    push_all(&mut rows, source_rows("Wordnik", SourceKind::Wordnik, wordnik, spell));
    push_all(&mut rows, source_rows("Urban", SourceKind::Urban, urban, spell));
    push_all(&mut rows, llm_list(llm, spell));
    let ghost b = row_views(rows@);
    let mut i: usize = first;
    while i < ecdict.len()
        invariant
            first <= i <= ecdict.len(),
            row_views(rows@) == b + ecdict_rows(ecdict@, first as int, i as int),
        decreases ecdict.len() - i,
    {
        let ghost prev = rows@;
        rows.push(render_ecdict_row(&ecdict[i], i));
        assert(row_views(rows@) =~= row_views(prev).push(ecdict_row(ecdict@[i as int], i as int)));
        assert(ecdict_rows(ecdict@, first as int, i + 1) =~= ecdict_rows(
            ecdict@,
            first as int,
            i as int,
        ).push(ecdict_row(ecdict@[i as int], i as int)));
        i += 1;
    }
    assert(row_views(rows@) =~= base_rows(spell@, ecdict@, w0, u0, l0));
    attach(&mut rows, card);
    rows
}

} // verus!
