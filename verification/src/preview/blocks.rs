//! The card blocks after the synonyms: phrases, Chinese, tags,
//! Wikipedia, etymology, pronunciation and Urban Dictionary.
use vstd::prelude::*;
use crate::text::{
    contains_spec, esc_spec, join_spec, lemma_contains_self, lemma_contains_within, lemma_escape_adds_no_other_char, lemma_replace_absent_char, push_escaped,
    push_repeated, push_str, repeat_spec, replace, replace_char, replace_char_spec, replace_spec,
    views,
};
use crate::card::CardSources;
use crate::dictionary::StardictEntry;
use crate::sources::{DictEntry, URBAN_EXAMPLE_SEP};
use super::{
    encoded_word, learners_url, meta_opt, meta_wrap, push_escaped_join, push_meta_opt,
    push_source_h3, push_wrapped_all, source_h3, url_with, wrapped_spec, youdao_url,
};

verus! {

// ---------------------------------------------------------------------
// Phrases / examples
// ---------------------------------------------------------------------

/// Bilingual sentences: the English, then the Chinese as a meta line.
pub open spec fn sents_html(ps: Seq<(String, String)>) -> Seq<char>
    decreases ps.len(),
{
    if ps.len() == 0 {
        seq![]
    } else {
        sents_html(ps.drop_last()) + "<p>"@ + esc_spec(ps.last().0@) + meta_wrap(ps.last().1@)
            + "</p>"@
    }
}

/// Youdao's phrases and example sentences.
#[verifier::opaque]
pub open spec fn phrases_section_spec(spell: Seq<char>, extra: CardSources) -> Seq<char> {
    match extra.youdao {
        Some(y) => if y.phrs@.len() > 0 || y.sents@.len() > 0 {
            "<section><h2 id=\"phrases\">🧩 Phrases / Examples</h2>"@ + source_h3(
                "🌐"@,
                youdao_url(spell),
                "Youdao"@,
            ) + (if y.phrs@.len() > 0 {
                "<ul>"@ + wrapped_spec(views(y.phrs@), "<li>"@, "</li>"@) + "</ul>"@
            } else {
                Seq::<char>::empty()
            }) + sents_html(y.sents@) + "</section>"@
        } else {
            Seq::<char>::empty()
        },
        None => Seq::<char>::empty(),
    }
}

fn push_sents(out: &mut String, ps: &Vec<(String, String)>)
    ensures
        final(out)@ == old(out)@ + sents_html(ps@),
{
    let ghost start = out@;
    let mut i: usize = 0;
    while i < ps.len()
        invariant
            i <= ps.len(),
            out@ == start + sents_html(ps@.take(i as int)),
        decreases ps.len() - i,
    {
        assert(ps@.take((i + 1) as int).drop_last() == ps@.take(i as int));
        push_str(out, "<p>");
        push_escaped(out, ps[i].0.as_str());
        push_str(out, "<span class=\"meta\">");
        push_escaped(out, ps[i].1.as_str());
        push_str(out, "</span>");
        push_str(out, "</p>");
        i += 1;
    }
    assert(ps@.take(ps.len() as int) == ps@);
}

pub fn push_phrases_section(out: &mut String, spell: &str, extra: &CardSources)
    ensures
        final(out)@ == old(out)@ + phrases_section_spec(spell@, *extra),
{
    reveal(phrases_section_spec);
    let ghost start = out@;
    match &extra.youdao {
        Some(y) => {
            if y.phrs.len() > 0 || y.sents.len() > 0 {
                let enc = encoded_word(spell);
                let u = url_with("https://www.youdao.com/result?word=", &enc, "&lang=en");
                push_str(out, "<section><h2 id=\"phrases\">🧩 Phrases / Examples</h2>");
                push_source_h3(out, "🌐", &u, "Youdao");
                if y.phrs.len() > 0 {
                    push_str(out, "<ul>");
                    push_wrapped_all(out, &y.phrs, "<li>", "</li>");
                    push_str(out, "</ul>");
                }
                push_sents(out, &y.sents);
                push_str(out, "</section>");
            }
        },
        None => {},
    }
    assert(out@ == start + phrases_section_spec(spell@, *extra));
}

// ---------------------------------------------------------------------
// Chinese
// ---------------------------------------------------------------------

/// ECDICT's Chinese text: the translation, or else the definition.
pub open spec fn ecdict_text(e: StardictEntry) -> Option<Seq<char>> {
    match e.translation {
        Some(t) => Some(t@),
        None => match e.definition {
            Some(d) => Some(d@),
            None => None,
        },
    }
}

/// ECDICT's Chinese line: backslashes become `/`, line breaks `; `;
/// empty when there is none.
pub open spec fn ecdict_zh_spec(ecdict: Option<StardictEntry>) -> Seq<char> {
    match ecdict {
        Some(e) => match ecdict_text(e) {
            Some(t) => replace_char_spec(replace_char_spec(t, '\\', "/"@), '\n', "; "@),
            None => Seq::<char>::empty(),
        },
        None => Seq::<char>::empty(),
    }
}

pub open spec fn yd_ec(extra: CardSources) -> Seq<Seq<char>> {
    match extra.youdao {
        Some(y) => views(y.ec_zh@),
        None => seq![],
    }
}

pub open spec fn yd_web(extra: CardSources) -> Seq<Seq<char>> {
    match extra.youdao {
        Some(y) => views(y.web_trans@),
        None => seq![],
    }
}

#[verifier::opaque]
pub open spec fn zh_yd_part(spell: Seq<char>, extra: CardSources) -> Seq<char> {
    if yd_ec(extra).len() > 0 || yd_web(extra).len() > 0 {
        source_h3("🌐"@, youdao_url(spell), "Youdao"@) + wrapped_spec(yd_ec(extra), "<p>"@, "</p>"@)
            + (if yd_web(extra).len() > 0 {
            "<p><span class=\"src\">Web:</span> "@ + esc_spec(join_spec(yd_web(extra), "; "@))
                + "</p>"@
        } else {
            Seq::<char>::empty()
        })
    } else {
        Seq::<char>::empty()
    }
}

/// The Chinese block: ECDICT's line, then Youdao's glosses and web
/// translations.
#[verifier::opaque]
pub open spec fn zh_section_spec(
    spell: Seq<char>,
    ecdict: Option<StardictEntry>,
    extra: CardSources,
) -> Seq<char> {
    let ecz = ecdict_zh_spec(ecdict);
    if ecz.len() > 0 || yd_ec(extra).len() > 0 || yd_web(extra).len() > 0 {
        "<section><h2 id=\"zh\">📕 Chinese</h2>"@ + (if ecz.len() > 0 {
            "<h3>📕 ECDICT</h3><p>"@ + esc_spec(ecz) + "</p>"@
        } else {
            Seq::<char>::empty()
        }) + zh_yd_part(spell, extra) + "</section>"@
    } else {
        Seq::<char>::empty()
    }
}

/// ECDICT's Chinese line of an entry.
pub fn ecdict_zh(ecdict: &Option<StardictEntry>) -> (r: String)
    ensures
        r@ == ecdict_zh_spec(*ecdict),
{
    let t = match ecdict {
        Some(e) => match &e.translation {
            Some(t) => Some(t),
            None => match &e.definition {
                Some(d) => Some(d),
                None => None,
            },
        },
        None => None,
    };
    match t {
        Some(t) => {
            let a = replace_char(t.as_str(), '\\', "/");
            replace_char(a.as_str(), '\n', "; ")
        },
        None => String::new(),
    }
}

fn empty_strings() -> (r: Vec<String>)
    ensures
        r@.len() == 0,
{
    Vec::new()
}

fn push_zh_yd(out: &mut String, spell: &str, extra: &CardSources)
    ensures
        final(out)@ == old(out)@ + zh_yd_part(spell@, *extra),
{
    reveal(zh_yd_part);
    let ghost start = out@;
    let none = empty_strings();
    let ec = match &extra.youdao {
        Some(y) => &y.ec_zh,
        None => &none,
    };
    let web = match &extra.youdao {
        Some(y) => &y.web_trans,
        None => &none,
    };
    assert(views(ec@) == yd_ec(*extra));
    assert(views(web@) == yd_web(*extra));
    if ec.len() > 0 || web.len() > 0 {
        let enc = encoded_word(spell);
        let u = url_with("https://www.youdao.com/result?word=", &enc, "&lang=en");
        push_source_h3(out, "🌐", &u, "Youdao");
        push_wrapped_all(out, ec, "<p>", "</p>");
        if web.len() > 0 {
            push_str(out, "<p><span class=\"src\">Web:</span> ");
            push_escaped_join(out, web, "; ");
            push_str(out, "</p>");
        }
    }
    assert(out@ == start + zh_yd_part(spell@, *extra));
}

pub fn push_zh_section(
    out: &mut String,
    spell: &str,
    ecdict: &Option<StardictEntry>,
    extra: &CardSources,
)
    ensures
        final(out)@ == old(out)@ + zh_section_spec(spell@, *ecdict, *extra),
{
    reveal(zh_section_spec);
    let ghost start = out@;
    let ecz = ecdict_zh(ecdict);
    let has_yd = match &extra.youdao {
        Some(y) => y.ec_zh.len() > 0 || y.web_trans.len() > 0,
        None => false,
    };
    assert(has_yd == (yd_ec(*extra).len() > 0 || yd_web(*extra).len() > 0));
    if ecz.as_str().unicode_len() > 0 || has_yd {
        push_str(out, "<section><h2 id=\"zh\">📕 Chinese</h2>");
        if ecz.as_str().unicode_len() > 0 {
            push_str(out, "<h3>📕 ECDICT</h3><p>");
            push_escaped(out, ecz.as_str());
            push_str(out, "</p>");
        }
        push_zh_yd(out, spell, extra);
        push_str(out, "</section>");
    }
    assert(out@ == start + zh_section_spec(spell@, *ecdict, *extra));
}

// ---------------------------------------------------------------------
// Inflections / tags
// ---------------------------------------------------------------------

/// A paragraph around a non-empty optional text, escaped.
pub open spec fn opt_para(open: Seq<char>, x: Option<String>, close: Seq<char>) -> Seq<char> {
    match x {
        Some(t) => if t@.len() > 0 {
            open + esc_spec(t@) + close
        } else {
            Seq::<char>::empty()
        },
        None => Seq::<char>::empty(),
    }
}

/// A non-empty optional text.
pub open spec fn has_text(x: Option<String>) -> bool {
    x matches Some(t) && t@.len() > 0
}

/// The Collins stars: one per rating point, at most five.
pub open spec fn collins_stars(c: u32) -> Seq<char> {
    repeat_spec("⭐️"@, if c < 5 {
        c as nat
    } else {
        5
    })
}

/// ECDICT's inflections, exam tags and Collins rating.
#[verifier::opaque]
pub open spec fn tags_section_spec(ecdict: Option<StardictEntry>) -> Seq<char> {
    match ecdict {
        Some(e) => if has_text(e.exchange) || has_text(e.tag) || (e.collins matches Some(c) && c
            > 0) {
            "<section><h2 id=\"tags\">🔀 Inflections / Tags</h2>"@ + "<h3>📕 ECDICT</h3>"@
                + opt_para("<p>"@, e.exchange, "</p>"@) + opt_para(
                "<p class=\"tags\">Exam: "@,
                e.tag,
                "</p>"@,
            ) + (match e.collins {
                Some(c) => if c > 0 {
                    "<p>Collins "@ + collins_stars(c) + "</p>"@
                } else {
                    Seq::<char>::empty()
                },
                None => Seq::<char>::empty(),
            }) + "</section>"@
        } else {
            Seq::<char>::empty()
        },
        None => Seq::<char>::empty(),
    }
}

fn push_opt_para(out: &mut String, open: &str, x: &Option<String>, close: &str)
    ensures
        final(out)@ == old(out)@ + opt_para(open@, *x, close@),
{
    match x {
        Some(t) => {
            if t.as_str().unicode_len() > 0 {
                push_str(out, open);
                push_escaped(out, t.as_str());
                push_str(out, close);
            } else {
                assert(out@ == out@ + Seq::<char>::empty());
            }
        },
        None => {
            assert(out@ == out@ + Seq::<char>::empty());
        },
    }
}

pub fn push_tags_section(out: &mut String, ecdict: &Option<StardictEntry>)
    ensures
        final(out)@ == old(out)@ + tags_section_spec(*ecdict),
{
    reveal(tags_section_spec);
    let ghost start = out@;
    match ecdict {
        Some(e) => {
            let infl = e.exchange_info();
            let tags = e.tag_info();
            let stars = match e.collins {
                Some(c) => c > 0,
                None => false,
            };
            assert(infl is Some == has_text(e.exchange));
            assert(tags is Some == has_text(e.tag));
            if infl.is_some() || tags.is_some() || stars {
                push_str(out, "<section><h2 id=\"tags\">🔀 Inflections / Tags</h2>");
                push_str(out, "<h3>📕 ECDICT</h3>");
                push_opt_para(out, "<p>", &e.exchange, "</p>");
                push_opt_para(out, "<p class=\"tags\">Exam: ", &e.tag, "</p>");
                match e.collins {
                    Some(c) => {
                        if c > 0 {
                            let n: u32 = if c < 5 {
                                c
                            } else {
                                5
                            };
                            push_str(out, "<p>Collins ");
                            push_repeated(out, "⭐️", n as usize);
                            push_str(out, "</p>");
                        }
                    },
                    None => {},
                }
                push_str(out, "</section>");
            }
        },
        None => {},
    }
    assert(out@ == start + tags_section_spec(*ecdict));
}

// ---------------------------------------------------------------------
// Wikipedia
// ---------------------------------------------------------------------

/// An entry with a Collins rating shows one star per point, at most
/// five, on a `Collins` line of its tags block.
pub proof fn lemma_tags_show_collins_stars(e: StardictEntry, c: u32)
    requires
        e.collins == Some(c),
        c > 0,
    ensures
        contains_spec(
            tags_section_spec(Some(e)),
            "<p>Collins "@ + repeat_spec(
                "⭐️"@,
                if c <= 5 {
                    c as nat
                } else {
                    5
                },
            ) + "</p>"@,
        ),
{
    reveal(tags_section_spec);
    let line = "<p>Collins "@ + collins_stars(c) + "</p>"@;
    let front = "<section><h2 id=\"tags\">🔀 Inflections / Tags</h2>"@ + "<h3>📕 ECDICT</h3>"@
        + opt_para("<p>"@, e.exchange, "</p>"@) + opt_para(
        "<p class=\"tags\">Exam: "@,
        e.tag,
        "</p>"@,
    );
    lemma_contains_self(line);
    lemma_contains_within(front, line, "</section>"@, line);
    assert(tags_section_spec(Some(e)) == front + line + "</section>"@);
}

/// The Wikipedia block, from the official summary only: the extract,
/// the image strip, and a link to the article.
#[verifier::opaque]
pub open spec fn wiki_section_spec(extra: CardSources) -> Seq<char> {
    match extra.wikipedia {
        Some(w) => if w.extract@.len() > 0 {
            "<section><h2 id=\"wiki\">📖 Wikipedia</h2><p>"@ + esc_spec(w.extract@) + "</p>"@ + (
            if w.images@.len() > 0 {
                "<div class=\"img-grid\">"@ + wrapped_spec(
                    views(w.images@),
                    "<img src=\""@,
                    "\" loading=\"lazy\">"@,
                ) + "</div>"@
            } else {
                Seq::<char>::empty()
            }) + (match w.url {
                Some(u) => "<a class=\"wiki-link\" href=\""@ + esc_spec(u@)
                    + "\">📖 Read on Wikipedia →</a>"@,
                None => Seq::<char>::empty(),
            }) + "</section>"@
        } else {
            Seq::<char>::empty()
        },
        None => Seq::<char>::empty(),
    }
}

pub fn push_wiki_section(out: &mut String, extra: &CardSources)
    ensures
        final(out)@ == old(out)@ + wiki_section_spec(*extra),
{
    reveal(wiki_section_spec);
    let ghost start = out@;
    match &extra.wikipedia {
        Some(w) => {
            if w.extract.as_str().unicode_len() > 0 {
                push_str(out, "<section><h2 id=\"wiki\">📖 Wikipedia</h2><p>");
                push_escaped(out, w.extract.as_str());
                push_str(out, "</p>");
                if w.images.len() > 0 {
                    push_str(out, "<div class=\"img-grid\">");
                    push_wrapped_all(out, &w.images, "<img src=\"", "\" loading=\"lazy\">");
                    push_str(out, "</div>");
                }
                match &w.url {
                    Some(u) => {
                        push_str(out, "<a class=\"wiki-link\" href=\"");
                        push_escaped(out, u.as_str());
                        push_str(out, "\">📖 Read on Wikipedia →</a>");
                    },
                    None => {},
                }
                push_str(out, "</section>");
            }
        },
        None => {},
    }
    assert(out@ == start + wiki_section_spec(*extra));
}

// ---------------------------------------------------------------------
// Etymology
// ---------------------------------------------------------------------

/// Youdao's etymology, when it has one.
#[verifier::opaque]
pub open spec fn etym_section_spec(spell: Seq<char>, extra: CardSources) -> Seq<char> {
    match extra.youdao {
        Some(y) => match y.etym {
            Some(e) => if e@.len() > 0 {
                "<section><h2 id=\"etym\">🌱 Etymology</h2>"@ + source_h3(
                    "🌐"@,
                    youdao_url(spell),
                    "Youdao"@,
                ) + "<p>"@ + esc_spec(e@) + "</p>"@ + "</section>"@
            } else {
                Seq::<char>::empty()
            },
            None => Seq::<char>::empty(),
        },
        None => Seq::<char>::empty(),
    }
}

pub fn push_etym_section(out: &mut String, spell: &str, extra: &CardSources)
    ensures
        final(out)@ == old(out)@ + etym_section_spec(spell@, *extra),
{
    reveal(etym_section_spec);
    let ghost start = out@;
    match &extra.youdao {
        Some(y) => match &y.etym {
            Some(e) => {
                if e.as_str().unicode_len() > 0 {
                    let enc = encoded_word(spell);
                    let u = url_with("https://www.youdao.com/result?word=", &enc, "&lang=en");
                    push_str(out, "<section><h2 id=\"etym\">🌱 Etymology</h2>");
                    push_source_h3(out, "🌐", &u, "Youdao");
                    push_str(out, "<p>");
                    push_escaped(out, e.as_str());
                    push_str(out, "</p>");
                    push_str(out, "</section>");
                }
            },
            None => {},
        },
        None => {},
    }
    assert(out@ == start + etym_section_spec(spell@, *extra));
}

// ---------------------------------------------------------------------
// Pronunciation
// ---------------------------------------------------------------------

pub open spec fn ml_phonetic(extra: CardSources) -> Option<String> {
    match extra.mw_learners {
        Some(m) => m.phonetic,
        None => None,
    }
}

pub open spec fn ml_audio(extra: CardSources) -> Option<String> {
    match extra.mw_learners {
        Some(m) => m.audio_url,
        None => None,
    }
}

pub open spec fn ec_phonetic(ecdict: Option<StardictEntry>) -> Option<String> {
    match ecdict {
        Some(e) => e.phonetic,
        None => None,
    }
}

/// ECDICT's phonetic, then M-W Learner's phonetic and audio link.
#[verifier::opaque]
pub open spec fn pron_section_spec(
    spell: Seq<char>,
    ecdict: Option<StardictEntry>,
    extra: CardSources,
) -> Seq<char> {
    let ec = ec_phonetic(ecdict);
    let ml = ml_phonetic(extra);
    let au = ml_audio(extra);
    if has_text(ec) || has_text(ml) || has_text(au) {
        "<section><h2 id=\"pron\">🔊 Pronunciation</h2>"@ + opt_para(
            "<h3>📕 ECDICT</h3><p>/"@,
            ec,
            "/</p>"@,
        ) + (if has_text(ml) || has_text(au) {
            source_h3("📗"@, learners_url(spell), "M-W Learner's"@) + opt_para("<p>/"@, ml, "/</p>"@)
                + opt_para("<p><a href=\""@, au, "\">▶ play audio</a></p>"@)
        } else {
            Seq::<char>::empty()
        }) + "</section>"@
    } else {
        Seq::<char>::empty()
    }
}

fn none_string() -> (r: Option<String>)
    ensures
        r is None,
{
    None
}

fn has_text_of(x: &Option<String>) -> (r: bool)
    ensures
        r == has_text(*x),
{
    match x {
        Some(t) => t.as_str().unicode_len() > 0,
        None => false,
    }
}

pub fn push_pron_section(
    out: &mut String,
    spell: &str,
    ecdict: &Option<StardictEntry>,
    extra: &CardSources,
)
    ensures
        final(out)@ == old(out)@ + pron_section_spec(spell@, *ecdict, *extra),
{
    reveal(pron_section_spec);
    let ghost start = out@;
    let none = none_string();
    let ec = match ecdict {
        Some(e) => &e.phonetic,
        None => &none,
    };
    let ml = match &extra.mw_learners {
        Some(m) => &m.phonetic,
        None => &none,
    };
    let au = match &extra.mw_learners {
        Some(m) => &m.audio_url,
        None => &none,
    };
    assert(*ec == ec_phonetic(*ecdict));
    assert(*ml == ml_phonetic(*extra));
    assert(*au == ml_audio(*extra));
    let has_ec = has_text_of(ec);
    let has_ml = has_text_of(ml);
    let has_au = has_text_of(au);
    if has_ec || has_ml || has_au {
        push_str(out, "<section><h2 id=\"pron\">🔊 Pronunciation</h2>");
        push_opt_para(out, "<h3>📕 ECDICT</h3><p>/", ec, "/</p>");
        if has_ml || has_au {
            let enc = encoded_word(spell);
            let u = url_with("https://learnersdictionary.com/definition/", &enc, "");
            proof {
                reveal_strlit("");
            }
            push_source_h3(out, "📗", &u, "M-W Learner's");
            push_opt_para(out, "<p>/", ml, "/</p>");
            push_opt_para(out, "<p><a href=\"", au, "\">▶ play audio</a></p>");
        }
        push_str(out, "</section>");
    }
    assert(out@ == start + pron_section_spec(spell@, *ecdict, *extra));
}

// ---------------------------------------------------------------------
// Urban Dictionary
// ---------------------------------------------------------------------

/// An Urban Dictionary definition, escaped, its example separator turned
/// into an `e.g.` line break.
pub open spec fn urban_def_html(def: Seq<char>) -> Seq<char> {
    replace_spec(esc_spec(def), URBAN_EXAMPLE_SEP@, "<br><em>e.g. "@)
}

/// A definition without the example separator is shown escaped and
/// otherwise as it is: literal text such as `e.g.` is never split.
pub proof fn lemma_urban_without_separator(def: Seq<char>)
    requires
        forall|i: int| 0 <= i < def.len() ==> def[i] != '\u{1e}',
    ensures
        urban_def_html(def) == esc_spec(def),
{
    reveal_strlit("\u{1e}");
    assert(URBAN_EXAMPLE_SEP@ == seq!['\u{1e}']);
    lemma_escape_adds_no_other_char(def, '\u{1e}');
    lemma_replace_absent_char(esc_spec(def), '\u{1e}', "<br><em>e.g. "@);
}

pub open spec fn urban_items(us: Seq<DictEntry>) -> Seq<char>
    decreases us.len(),
{
    if us.len() == 0 {
        seq![]
    } else {
        urban_items(us.drop_last()) + "<li>"@ + urban_def_html(us.last().definition@) + meta_opt(
            us.last().extra,
        ) + "</li>"@
    }
}

/// The Urban Dictionary block.
#[verifier::opaque]
pub open spec fn urban_section_spec(urban: Seq<DictEntry>) -> Seq<char> {
    if urban.len() > 0 {
        "<section><h2 id=\"urban\">🔥 Urban Dictionary</h2><ol>"@ + urban_items(urban)
            + "</ol></section>"@
    } else {
        Seq::<char>::empty()
    }
}

pub fn push_urban_section(out: &mut String, urban: &Vec<DictEntry>)
    ensures
        final(out)@ == old(out)@ + urban_section_spec(urban@),
{
    reveal(urban_section_spec);
    let ghost start = out@;
    if urban.len() == 0 {
        assert(out@ == start + Seq::<char>::empty());
        return;
    }
    push_str(out, "<section><h2 id=\"urban\">🔥 Urban Dictionary</h2><ol>");
    let ghost s2 = out@;
    proof {
        reveal_strlit("\u{1e}");
    }
    assert(URBAN_EXAMPLE_SEP@.len() > 0);
    let mut i: usize = 0;
    while i < urban.len()
        invariant
            i <= urban.len(),
            URBAN_EXAMPLE_SEP@.len() > 0,
            out@ == s2 + urban_items(urban@.take(i as int)),
        decreases urban.len() - i,
    {
        assert(urban@.take((i + 1) as int).drop_last() == urban@.take(i as int));
        let e = crate::text::esc(urban[i].definition.as_str());
        let d = replace(e.as_str(), URBAN_EXAMPLE_SEP, "<br><em>e.g. ");
        push_str(out, "<li>");
        push_str(out, d.as_str());
        push_meta_opt(out, &urban[i].extra);
        push_str(out, "</li>");
        i += 1;
    }
    assert(urban@.take(urban.len() as int) == urban@);
    push_str(out, "</ol></section>");
}

} // verus!
