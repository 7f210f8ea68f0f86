//! The structured answer of the language model, and how it is cut out
//! of the model's possibly noisy text.
use vstd::prelude::*;
use crate::text::{
    chars_of, ends_with_spec, matches_at, push_str, starts_with, starts_with_spec,
    string_of_range, trim, trim_spec,
};

verus! {

/// One example sentence and the register it is written in.
#[derive(Debug, Clone, PartialEq)]
pub struct LlmExample {
    /// One of: internet, software, casual, office, email, slack.
    pub scenario: String,
    pub sentence: String,
}

/// English meaning and examples.
#[derive(Debug, Clone, PartialEq)]
pub struct LlmEnglish {
    pub definitions: Vec<String>,
    pub examples: Vec<LlmExample>,
}

/// Tech-domain usage.
#[derive(Debug, Clone, PartialEq)]
pub struct LlmTech {
    /// True iff the word is a tech proper noun or has an established usage
    /// in tech, internet or software contexts.
    pub is_tech_term: bool,
    /// Specific tech sub-fields the word appears in.
    pub domains: Vec<String>,
    /// English explanation of the tech meaning(s), if applicable.
    pub explanation: Option<String>,
}

/// Chinese translation and usage notes.
#[derive(Debug, Clone, PartialEq)]
pub struct LlmChinese {
    pub translations: Vec<String>,
    /// When and how the word is used, in Chinese.
    pub usage_notes: Option<String>,
}

/// The model's answer: three optional sections.
#[derive(Debug, Clone, PartialEq)]
pub struct LlmResult {
    pub english: Option<LlmEnglish>,
    pub tech: Option<LlmTech>,
    pub chinese: Option<LlmChinese>,
}

impl Default for LlmEnglish {
    fn default() -> (r: Self)
        ensures
            r.definitions@.len() == 0 && r.examples@.len() == 0,
    {
        LlmEnglish { definitions: Vec::new(), examples: Vec::new() }
    }
}

impl Default for LlmTech {
    fn default() -> (r: Self)
        ensures
            !r.is_tech_term && r.domains@.len() == 0 && r.explanation is None,
    {
        LlmTech { is_tech_term: false, domains: Vec::new(), explanation: None }
    }
}

impl Default for LlmChinese {
    fn default() -> (r: Self)
        ensures
            r.translations@.len() == 0 && r.usage_notes is None,
    {
        LlmChinese { translations: Vec::new(), usage_notes: None }
    }
}

impl Default for LlmResult {
    fn default() -> (r: Self)
        ensures
            r.english is None && r.tech is None && r.chinese is None,
    {
        LlmResult { english: None, tech: None, chinese: None }
    }
}

/// `s` with every trailing repetition of `p` removed
/// (`str::trim_end_matches`).
pub open spec fn trim_end_matches_spec(s: Seq<char>, p: Seq<char>) -> Seq<char>
    decreases s.len(),
{
    if p.len() > 0 && ends_with_spec(s, p) {
        trim_end_matches_spec(s.take(s.len() - p.len()), p)
    } else {
        s
    }
}

/// Index of the first `c` in `s` at or after `i` (`s.len()` if none).
pub open spec fn index_from(s: Seq<char>, c: char, i: int) -> int
    decreases s.len() - i,
{
    if i < 0 || i >= s.len() {
        s.len() as int
    } else if s[i] == c {
        i
    } else {
        index_from(s, c, i + 1)
    }
}

/// Index of the last `c` in `s` before `j` (`-1` if none).
pub open spec fn rindex_before(s: Seq<char>, c: char, j: int) -> int
    decreases j,
{
    if j <= 0 || j > s.len() {
        -1
    } else if s[j - 1] == c {
        j - 1
    } else {
        rindex_before(s, c, j - 1)
    }
}

/// The text after a leading code fence is removed: the fence line is
/// dropped (the whole rest when there is no line break), trailing fences
/// are removed, then surrounding whitespace.
pub open spec fn unfenced_spec(raw: Seq<char>) -> Seq<char> {
    let t = trim_spec(raw);
    if starts_with_spec(t, "```"@) {
        let rest = t.skip(3);
        let nl = index_from(rest, '\n', 0);
        let after_lang = if nl < rest.len() {
            rest.skip(nl + 1)
        } else {
            rest
        };
        trim_spec(trim_end_matches_spec(after_lang, "```"@))
    } else {
        t
    }
}

/// The JSON object cut out of the model's text: from the first `{` to
/// the last `}` of the unfenced text, or why there is none.
pub open spec fn json_object_spec(raw: Seq<char>) -> Result<Seq<char>, Seq<char>> {
    let s = unfenced_spec(raw);
    let start = index_from(s, '{', 0);
    let end = rindex_before(s, '}', s.len() as int);
    if start == s.len() {
        Err("no '{' in output"@)
    } else if end < 0 {
        Err("no '}' in output"@)
    } else if end < start {
        Err("malformed JSON braces"@)
    } else {
        Ok(s.subrange(start, end + 1))
    }
}

/// Removes trailing repetitions of "```" from `v[from..]`.
fn trim_fences_end(v: &Vec<char>, from: usize) -> (r: usize)
    requires
        from <= v.len(),
    ensures
        from <= r <= v.len(),
        trim_end_matches_spec(v@.subrange(from as int, v.len() as int), "```"@) == v@.subrange(
            from as int,
            r as int,
        ),
{
    proof {
        reveal_strlit("```");
    }
    let fence = chars_of("```");
    let mut end = v.len();
    while end - from >= 3 && matches_at(v, end - 3, &fence)
        invariant
            from <= end <= v.len(),
            fence@ == "```"@,
            "```"@.len() == 3,
            trim_end_matches_spec(v@.subrange(from as int, v.len() as int), "```"@)
                == trim_end_matches_spec(v@.subrange(from as int, end as int), "```"@),
        decreases end,
    {
        let ghost s = v@.subrange(from as int, end as int);
        assert(s.skip(s.len() - 3) == v@.subrange(end - 3, end as int));
        assert(s.take(s.len() - 3) == v@.subrange(from as int, end - 3));
        assert(ends_with_spec(s, "```"@));
        assert(trim_end_matches_spec(s, "```"@) == trim_end_matches_spec(s.take(s.len() - 3), "```"@));
        end -= 3;
    }
    proof {
        let s = v@.subrange(from as int, end as int);
        if s.len() >= 3 {
            assert(s.skip(s.len() - 3) == v@.subrange(end - 3, end as int));
        }
        assert(!ends_with_spec(s, "```"@));
    }
    end
}

/// Index of the first `c` at or after `from`.
fn index_from_exec(v: &Vec<char>, c: char, from: usize) -> (r: usize)
    requires
        from <= v.len(),
    ensures
        r as int == index_from(v@, c, from as int),
        r <= v.len(),
{
    let mut i = from;
    while i < v.len() && v[i] != c
        invariant
            from <= i <= v.len(),
            index_from(v@, c, from as int) == index_from(v@, c, i as int),
        decreases v.len() - i,
    {
        i += 1;
    }
    i
}

/// Index of the last `c` before `to`, or `-1`.
fn rindex_exec(v: &Vec<char>, c: char) -> (r: Option<usize>)
    ensures
        match r {
            Some(k) => k as int == rindex_before(v@, c, v@.len() as int) && k < v.len(),
            None => rindex_before(v@, c, v@.len() as int) == -1,
        },
{
    let mut j = v.len();
    while j > 0 && v[j - 1] != c
        invariant
            j <= v.len(),
            rindex_before(v@, c, v@.len() as int) == rindex_before(v@, c, j as int),
        decreases j,
    {
        j -= 1;
    }
    if j == 0 {
        None
    } else {
        Some(j - 1)
    }
}

/// The text with a leading code fence removed.
pub fn unfenced(raw: &str) -> (r: String)
    ensures
        r@ == unfenced_spec(raw@),
{
    proof {
        reveal_strlit("```");
    }
    let t = trim(raw);
    if !starts_with(t.as_str(), "```") {
        return t;
    }
    let tv = chars_of(t.as_str());
    let rest = string_of_range(&tv, 3, tv.len());
    let rv = chars_of(rest.as_str());
    assert(rv@ == tv@.skip(3));
    let nl = index_from_exec(&rv, '\n', 0);
    let body_start = if nl < rv.len() {
        nl + 1
    } else {
        0
    };
    let end = trim_fences_end(&rv, body_start);
    proof {
        if nl < rv.len() {
            assert(rv@.subrange(body_start as int, rv@.len() as int) == rv@.skip(nl + 1));
        } else {
            assert(rv@.subrange(0, rv@.len() as int) == rv@);
        }
    }
    let inner = string_of_range(&rv, body_start, end);
    trim(inner.as_str())
}

/// Cuts the JSON object out of the model's text: strips a ```` ``` ````
/// fence if present, then takes everything from the first `{` to the
/// last `}`.
pub fn extract_json_object(raw: &str) -> (r: Result<String, String>)
    ensures
        match r {
            Ok(j) => json_object_spec(raw@) == Ok::<Seq<char>, Seq<char>>(j@),
            Err(m) => json_object_spec(raw@) == Err::<Seq<char>, Seq<char>>(m@),
        },
{
    let stripped = unfenced(raw);
    let s = chars_of(stripped.as_str());
    let start = index_from_exec(&s, '{', 0);
    let last = rindex_exec(&s, '}');
    if start == s.len() {
        let mut m = String::new();
        push_str(&mut m, "no '{' in output");
        return Err(m);
    }
    let last = match last {
        Some(k) => k,
        None => {
            let mut m = String::new();
            push_str(&mut m, "no '}' in output");
            return Err(m);
        },
    };
    if last < start {
        let mut m = String::new();
        push_str(&mut m, "malformed JSON braces");
        return Err(m);
    }
    Ok(string_of_range(&s, start, last + 1))
}

/// An answer with no section at all is refused.
pub fn require_sections(r: LlmResult) -> (out: Result<LlmResult, String>)
    ensures
        (r.english is None && r.tech is None && r.chinese is None) ==> (out matches Err(m) && m@
            == "LLM result has no english/tech/chinese sections"@),
        !(r.english is None && r.tech is None && r.chinese is None) ==> out == Ok::<
            LlmResult,
            String,
        >(r),
{
    if r.english.is_none() && r.tech.is_none() && r.chinese.is_none() {
        let mut m = String::new();
        push_str(&mut m, "LLM result has no english/tech/chinese sections");
        Err(m)
    } else {
        Ok(r)
    }
}

} // verus!
