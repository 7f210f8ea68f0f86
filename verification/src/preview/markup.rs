//! What the card's markup never holds: no tag of the finished card's
//! body, nor of its head after the character set, starts with `<m`, so
//! no `<meta ...>` tag, such as the reload request, appears there.
use vstd::prelude::*;
use crate::text::{
    contains_spec, decimal_spec, digit_spec, esc_char_spec, esc_spec, repeat_spec, replace_spec,
};
use crate::card::CardSources;
use crate::dictionary::StardictEntry;
use crate::llm::response::{LlmExample, LlmResult};
use crate::sources::DictEntry;
use super::blocks::{
    collins_stars, etym_section_spec, opt_para, phrases_section_spec, pron_section_spec,
    sents_html, tags_section_spec, urban_def_html, urban_items, urban_section_spec,
    wiki_section_spec, zh_section_spec, zh_yd_part,
};
use super::page::{
    card_body_spec, link_items, links_bar_spec, llm_section_spec, page_spec, phonetic_html,
    REFRESH_META, STYLE,
};
use super::{
    ant_block, claude_inner_spec, dm_part, ee_ml_part, ee_section_spec, ee_wk_part, ee_wn_part,
    ee_yd_part, en_html, examples_html, group_rows, meta_opt, meta_wrap, more_if_capped,
    more_row, mw_groups_part, pair_items, pos_items, pos_meta, rel_block, sense_row, source_h3,
    source_h4, syn_block, syn_section_spec, tech_html, toc_links_spec, toc_spec,
    wordnik_items, wrapped_spec, yd_lines_part, zh_html,
};

verus! {

/// No `<` anywhere in `s`.
pub open spec fn lt_free(s: Seq<char>) -> bool {
    forall|i: int| 0 <= i < s.len() ==> s[i] != '<'
}

/// Every `<` in `s` is followed, within `s`, by a character other than
/// `m`: `s` opens no `<m...` tag, whatever text comes after it.
#[verifier::opaque]
pub open spec fn meta_free(s: Seq<char>) -> bool {
    forall|i: int| 0 <= i < s.len() && #[trigger] s[i] == '<' ==> i + 1 < s.len() && s[i + 1] != 'm'
}

pub broadcast proof fn lemma_meta_free_concat(a: Seq<char>, b: Seq<char>)
    requires
        meta_free(a),
        meta_free(b),
    ensures
        #[trigger] meta_free(a + b),
{
    reveal(meta_free);
    assert forall|i: int| 0 <= i < (a + b).len() && #[trigger] (a + b)[i] == '<' implies i + 1 < (a
        + b).len() && (a + b)[i + 1] != 'm' by {
        if i < a.len() {
            assert(a[i] == '<');
            assert(a[i + 1] == (a + b)[i + 1]);
        } else {
            assert(b[i - a.len()] == '<');
            assert(b[i - a.len() + 1] == (a + b)[i + 1]);
        }
    }
}

pub broadcast proof fn lemma_lt_free_is_meta_free(s: Seq<char>)
    requires
        lt_free(s),
    ensures
        #[trigger] meta_free(s),
{
    reveal(meta_free);
}

proof fn lemma_esc_lt_free_rec(s: Seq<char>)
    ensures
        lt_free(esc_spec(s)),
    decreases s.len(),
{
    if s.len() > 0 {
        lemma_esc_lt_free_rec(s.drop_last());
        reveal_strlit("&amp;");
        reveal_strlit("&lt;");
        reveal_strlit("&gt;");
        let a = esc_spec(s.drop_last());
        let b = esc_char_spec(s.last());
        assert(lt_free(b));
        assert forall|i: int| 0 <= i < (a + b).len() implies (a + b)[i] != '<' by {
            if i < a.len() {
                assert((a + b)[i] == a[i]);
            } else {
                assert((a + b)[i] == b[i - a.len()]);
            }
        }
    }
}

/// Escaped text holds no `<`.
pub broadcast proof fn lemma_esc_lt_free(s: Seq<char>)
    ensures
        #[trigger] lt_free(esc_spec(s)),
{
    lemma_esc_lt_free_rec(s);
}

proof fn lemma_decimal_lt_free_rec(n: nat)
    ensures
        lt_free(decimal_spec(n)),
    decreases n,
{
    if n >= 10 {
        lemma_decimal_lt_free_rec(n / 10);
        assert(n % 10 < 10);
        assert(digit_spec(n % 10) != '<');
        let d = decimal_spec(n / 10);
        let e = d.push(digit_spec(n % 10));
        assert forall|i: int| 0 <= i < e.len() implies #[trigger] e[i] != '<' by {
            if i < d.len() {
                assert(e[i] == d[i]);
            }
        }
    } else {
        assert(digit_spec(n) != '<');
    }
}

/// A number written in decimal holds no `<`.
pub broadcast proof fn lemma_decimal_lt_free(n: nat)
    ensures
        #[trigger] lt_free(decimal_spec(n)),
{
    lemma_decimal_lt_free_rec(n);
}


proof fn lemma_repeat(s: Seq<char>, n: nat)
    requires
        meta_free(s),
    ensures
        meta_free(repeat_spec(s, n)),
    decreases n,
{
    broadcast use lemma_meta_free_concat, lemma_lt_free_is_meta_free, lemma_esc_lt_free,
        lemma_decimal_lt_free;

    if n > 0 {
        lemma_repeat(s, (n - 1) as nat);
    }
}

proof fn lemma_replace(s: Seq<char>, pat: Seq<char>, rep: Seq<char>)
    requires
        lt_free(s),
        meta_free(rep),
    ensures
        meta_free(replace_spec(s, pat, rep)),
    decreases s.len(),
{
    broadcast use lemma_meta_free_concat, lemma_lt_free_is_meta_free, lemma_esc_lt_free,
        lemma_decimal_lt_free;

    if pat.len() == 0 || s.len() < pat.len() {
    } else if s.take(pat.len() as int) == pat {
        let t = s.skip(pat.len() as int);
        assert forall|i: int| 0 <= i < t.len() implies t[i] != '<' by {
            assert(t[i] == s[i + pat.len()]);
        }
        lemma_replace(t, pat, rep);
    } else {
        let t = s.drop_first();
        assert forall|i: int| 0 <= i < t.len() implies t[i] != '<' by {
            assert(t[i] == s[i + 1]);
        }
        assert(lt_free(seq![s[0]]));
        lemma_replace(t, pat, rep);
    }
}

proof fn lemma_wrapped(xs: Seq<Seq<char>>, open: Seq<char>, close: Seq<char>)
    requires
        meta_free(open),
        meta_free(close),
    ensures
        meta_free(wrapped_spec(xs, open, close)),
    decreases xs.len(),
{
    broadcast use lemma_meta_free_concat, lemma_lt_free_is_meta_free, lemma_esc_lt_free,
        lemma_decimal_lt_free;

    if xs.len() > 0 {
        lemma_wrapped(xs.drop_last(), open, close);
    }
}

proof fn lemma_meta_wrap(x: Seq<char>)
    ensures
        meta_free(meta_wrap(x)),
{
    broadcast use lemma_meta_free_concat, lemma_lt_free_is_meta_free, lemma_esc_lt_free,
        lemma_decimal_lt_free;

    assert(meta_free("<span class=\"meta\">"@)) by {
        reveal(meta_free);
        reveal_strlit("<span class=\"meta\">");
    }
    assert(meta_free("</span>"@)) by {
        reveal(meta_free);
        reveal_strlit("</span>");
    }
}

proof fn lemma_meta_opt(x: Option<String>)
    ensures
        meta_free(meta_opt(x)),
{
    broadcast use lemma_meta_free_concat, lemma_lt_free_is_meta_free, lemma_esc_lt_free,
        lemma_decimal_lt_free;

    if let Some(t) = x {
        lemma_meta_wrap(t@);
    }
}

proof fn lemma_pos_meta(pos: Seq<char>)
    ensures
        meta_free(pos_meta(pos)),
{
    broadcast use lemma_meta_free_concat, lemma_lt_free_is_meta_free, lemma_esc_lt_free,
        lemma_decimal_lt_free;

    lemma_meta_wrap(pos);
}

proof fn lemma_sents(ps: Seq<(String, String)>)
    ensures
        meta_free(sents_html(ps)),
    decreases ps.len(),
{
    broadcast use lemma_meta_free_concat, lemma_lt_free_is_meta_free, lemma_esc_lt_free,
        lemma_decimal_lt_free;

    if ps.len() > 0 {
        lemma_sents(ps.drop_last());
        lemma_meta_wrap(ps.last().1@);
    assert(meta_free("<p>"@)) by {
        reveal(meta_free);
        reveal_strlit("<p>");
    }
    assert(meta_free("</p>"@)) by {
        reveal(meta_free);
        reveal_strlit("</p>");
    }
    }
}

proof fn lemma_source_h3(icon: Seq<char>, url: Seq<char>, name: Seq<char>)
    requires
        meta_free(icon),
        meta_free(name),
    ensures
        meta_free(source_h3(icon, url, name)),
{
    broadcast use lemma_meta_free_concat, lemma_lt_free_is_meta_free, lemma_esc_lt_free,
        lemma_decimal_lt_free;

    assert(meta_free("<h3>"@)) by {
        reveal(meta_free);
        reveal_strlit("<h3>");
    }
    assert(meta_free(" <a href=\""@)) by {
        reveal(meta_free);
        reveal_strlit(" <a href=\"");
    }
    assert(meta_free("\">"@)) by {
        reveal(meta_free);
        reveal_strlit("\">");
    }
    assert(meta_free(" →</a></h3>"@)) by {
        reveal(meta_free);
        reveal_strlit(" →</a></h3>");
    }
}

proof fn lemma_source_h4(icon: Seq<char>, url: Seq<char>, name: Seq<char>)
    requires
        meta_free(icon),
        meta_free(name),
    ensures
        meta_free(source_h4(icon, url, name)),
{
    broadcast use lemma_meta_free_concat, lemma_lt_free_is_meta_free, lemma_esc_lt_free,
        lemma_decimal_lt_free;

    assert(meta_free("<h4>"@)) by {
        reveal(meta_free);
        reveal_strlit("<h4>");
    }
    assert(meta_free(" <a href=\""@)) by {
        reveal(meta_free);
        reveal_strlit(" <a href=\"");
    }
    assert(meta_free("\">"@)) by {
        reveal(meta_free);
        reveal_strlit("\">");
    }
    assert(meta_free(" →</a></h4>"@)) by {
        reveal(meta_free);
        reveal_strlit(" →</a></h4>");
    }
}

proof fn lemma_urban_items(us: Seq<DictEntry>)
    ensures
        meta_free(urban_items(us)),
    decreases us.len(),
{
    broadcast use lemma_meta_free_concat, lemma_lt_free_is_meta_free, lemma_esc_lt_free,
        lemma_decimal_lt_free;

    if us.len() > 0 {
        lemma_urban_items(us.drop_last());
        lemma_meta_opt(us.last().extra);
    assert(meta_free("<br><em>e.g. "@)) by {
        reveal(meta_free);
        reveal_strlit("<br><em>e.g. ");
    }
    assert(meta_free("<li>"@)) by {
        reveal(meta_free);
        reveal_strlit("<li>");
    }
    assert(meta_free("</li>"@)) by {
        reveal(meta_free);
        reveal_strlit("</li>");
    }
        lemma_replace(esc_spec(us.last().definition@), crate::sources::URBAN_EXAMPLE_SEP@, "<br><em>e.g. "@);
        assert(meta_free(urban_def_html(us.last().definition@)));
    }
}

proof fn lemma_examples(exs: Seq<LlmExample>)
    ensures
        meta_free(examples_html(exs)),
    decreases exs.len(),
{
    broadcast use lemma_meta_free_concat, lemma_lt_free_is_meta_free, lemma_esc_lt_free,
        lemma_decimal_lt_free;

    if exs.len() > 0 {
        lemma_examples(exs.drop_last());
    assert(meta_free("<li><span class=\"src\">"@)) by {
        reveal(meta_free);
        reveal_strlit("<li><span class=\"src\">");
    }
    assert(meta_free("</span> "@)) by {
        reveal(meta_free);
        reveal_strlit("</span> ");
    }
    assert(meta_free("</li>"@)) by {
        reveal(meta_free);
        reveal_strlit("</li>");
    }
    }
}

proof fn lemma_wordnik_items(ws: Seq<DictEntry>)
    ensures
        meta_free(wordnik_items(ws)),
    decreases ws.len(),
{
    broadcast use lemma_meta_free_concat, lemma_lt_free_is_meta_free, lemma_esc_lt_free,
        lemma_decimal_lt_free;

    if ws.len() > 0 {
        lemma_wordnik_items(ws.drop_last());
        lemma_meta_opt(ws.last().extra);
    assert(meta_free("<li>"@)) by {
        reveal(meta_free);
        reveal_strlit("<li>");
    }
    assert(meta_free("</li>"@)) by {
        reveal(meta_free);
        reveal_strlit("</li>");
    }
    }
}

proof fn lemma_pos_items(defs: Seq<Seq<char>>, pos: Seq<char>)
    ensures
        meta_free(pos_items(defs, pos)),
    decreases defs.len(),
{
    broadcast use lemma_meta_free_concat, lemma_lt_free_is_meta_free, lemma_esc_lt_free,
        lemma_decimal_lt_free;

    if defs.len() > 0 {
        lemma_pos_items(defs.drop_last(), pos);
        lemma_pos_meta(pos);
    assert(meta_free("<li>"@)) by {
        reveal(meta_free);
        reveal_strlit("<li>");
    }
    assert(meta_free("</li>"@)) by {
        reveal(meta_free);
        reveal_strlit("</li>");
    }
    }
}

proof fn lemma_pair_items(ps: Seq<(Seq<char>, Seq<char>)>)
    ensures
        meta_free(pair_items(ps)),
    decreases ps.len(),
{
    broadcast use lemma_meta_free_concat, lemma_lt_free_is_meta_free, lemma_esc_lt_free,
        lemma_decimal_lt_free;

    if ps.len() > 0 {
        lemma_pair_items(ps.drop_last());
        lemma_pos_meta(ps.last().0);
    assert(meta_free("<li>"@)) by {
        reveal(meta_free);
        reveal_strlit("<li>");
    }
    assert(meta_free("</li>"@)) by {
        reveal(meta_free);
        reveal_strlit("</li>");
    }
    }
}

proof fn lemma_more_if_capped(total: nat, name: Seq<char>)
    requires
        meta_free(name),
    ensures
        meta_free(more_if_capped(total, name)),
{
    broadcast use lemma_meta_free_concat, lemma_lt_free_is_meta_free, lemma_esc_lt_free,
        lemma_decimal_lt_free;

    assert(meta_free("<li><span class=\"src\">… (+"@)) by {
        reveal(meta_free);
        reveal_strlit("<li><span class=\"src\">… (+");
    }
    assert(meta_free(" more — click "@)) by {
        reveal(meta_free);
        reveal_strlit(" more — click ");
    }
    assert(meta_free(" above)</span></li>"@)) by {
        reveal(meta_free);
        reveal_strlit(" above)</span></li>");
    }
    if total > super::SECONDARY_CAP {
        assert(meta_free(more_row((total - super::SECONDARY_CAP) as nat, name)));
    }
}

proof fn lemma_sense_row(label: Seq<char>, words: Seq<Seq<char>>)
    ensures
        meta_free(sense_row(label, words)),
{
    broadcast use lemma_meta_free_concat, lemma_lt_free_is_meta_free, lemma_esc_lt_free,
        lemma_decimal_lt_free;

    assert(meta_free("<p class=\"sense-row\"><span class=\"src\">"@)) by {
        reveal(meta_free);
        reveal_strlit("<p class=\"sense-row\"><span class=\"src\">");
    }
    assert(meta_free(":</span><span>"@)) by {
        reveal(meta_free);
        reveal_strlit(":</span><span>");
    }
    assert(meta_free("</span></p>"@)) by {
        reveal(meta_free);
        reveal_strlit("</span></p>");
    }
}

proof fn lemma_group_rows(gs: Seq<Vec<String>>, k: nat)
    ensures
        meta_free(group_rows(gs, k)),
    decreases k,
{
    broadcast use lemma_meta_free_concat, lemma_lt_free_is_meta_free, lemma_esc_lt_free,
        lemma_decimal_lt_free;

    if !(k == 0 || k > gs.len()) {
        lemma_group_rows(gs, (k - 1) as nat);
        if gs[k - 1]@.len() > 0 {
            lemma_sense_row(
                super::group_label((k - 1) as nat, gs.len(), gs[k - 1]@.len()),
                crate::text::views(gs[k - 1]@),
            );
        }
    }
}

proof fn lemma_syn_section(spell: Seq<char>, extra: CardSources)
    ensures
        meta_free(syn_section_spec(spell, extra)),
{
    broadcast use lemma_meta_free_concat, lemma_lt_free_is_meta_free, lemma_esc_lt_free,
        lemma_decimal_lt_free;

    reveal(syn_section_spec);
    reveal(syn_block);
    reveal(ant_block);
    reveal(rel_block);
    assert(meta_free("📘"@)) by {
        reveal(meta_free);
        reveal_strlit("📘");
    }
    assert(meta_free("M-W Thesaurus"@)) by {
        reveal(meta_free);
        reveal_strlit("M-W Thesaurus");
    }
    assert(meta_free("🌐"@)) by {
        reveal(meta_free);
        reveal_strlit("🌐");
    }
    assert(meta_free("Youdao"@)) by {
        reveal(meta_free);
        reveal_strlit("Youdao");
    }
    assert(meta_free("<h4>🎯 Datamuse</h4>"@)) by {
        reveal(meta_free);
        reveal_strlit("<h4>🎯 Datamuse</h4>");
    }
    assert(meta_free("("@)) by {
        reveal(meta_free);
        reveal_strlit("(");
    }
    assert(meta_free(")"@)) by {
        reveal(meta_free);
        reveal_strlit(")");
    }
    assert(meta_free("<p>"@)) by {
        reveal(meta_free);
        reveal_strlit("<p>");
    }
    assert(meta_free("</p>"@)) by {
        reveal(meta_free);
        reveal_strlit("</p>");
    }
    assert(meta_free("<h3>Synonyms</h3>"@)) by {
        reveal(meta_free);
        reveal_strlit("<h3>Synonyms</h3>");
    }
    assert(meta_free("<h3>Antonyms</h3>"@)) by {
        reveal(meta_free);
        reveal_strlit("<h3>Antonyms</h3>");
    }
    assert(meta_free("<h3>Related</h3>"@)) by {
        reveal(meta_free);
        reveal_strlit("<h3>Related</h3>");
    }
    assert(meta_free("<section><h2 id=\"syn\">🔄 Synonyms / Antonyms / Related</h2>"@)) by {
        reveal(meta_free);
        reveal_strlit("<section><h2 id=\"syn\">🔄 Synonyms / Antonyms / Related</h2>");
    }
    assert(meta_free("</section>"@)) by {
        reveal(meta_free);
        reveal_strlit("</section>");
    }
    let syn = super::mw_syn_groups(extra);
    let ant = super::mw_ant_groups(extra);
    lemma_group_rows(syn, syn.len());
    lemma_group_rows(ant, ant.len());
    lemma_source_h4("📘"@, super::thesaurus_url(spell), "M-W Thesaurus"@);
    lemma_source_h4("🌐"@, super::youdao_url(spell), "Youdao"@);
    assert(meta_free(mw_groups_part(spell, syn)));
    assert(meta_free(mw_groups_part(spell, ant)));
    let ds = super::dm_syns(extra);
    let da = super::dm_ants(extra);
    let dr = super::dm_rels(extra);
    lemma_sense_row("("@ + decimal_spec(ds.len()) + ")"@, ds);
    lemma_sense_row("("@ + decimal_spec(da.len()) + ")"@, da);
    lemma_sense_row("("@ + decimal_spec(dr.len()) + ")"@, dr);
    assert(meta_free(dm_part(ds)));
    assert(meta_free(dm_part(da)));
    assert(meta_free(dm_part(dr)));
    lemma_wrapped(super::yd_syno(extra), "<p>"@, "</p>"@);
    lemma_wrapped(super::yd_rel(extra), "<p>"@, "</p>"@);
    assert(meta_free(yd_lines_part(spell, super::yd_syno(extra))));
    assert(meta_free(yd_lines_part(spell, super::yd_rel(extra))));
    assert(meta_free(syn_block(spell, extra)));
    assert(meta_free(ant_block(spell, extra)));
    assert(meta_free(rel_block(spell, extra)));
}

proof fn lemma_ee_section(spell: Seq<char>, wordnik: Seq<DictEntry>, extra: CardSources)
    ensures
        meta_free(ee_section_spec(spell, wordnik, extra)),
{
    broadcast use lemma_meta_free_concat, lemma_lt_free_is_meta_free, lemma_esc_lt_free,
        lemma_decimal_lt_free;

    reveal(ee_section_spec);
    reveal(ee_wn_part);
    reveal(ee_ml_part);
    reveal(ee_wk_part);
    reveal(ee_yd_part);
    assert(meta_free("📘"@)) by {
        reveal(meta_free);
        reveal_strlit("📘");
    }
    assert(meta_free("Wordnik"@)) by {
        reveal(meta_free);
        reveal_strlit("Wordnik");
    }
    assert(meta_free("📗"@)) by {
        reveal(meta_free);
        reveal_strlit("📗");
    }
    assert(meta_free("M-W Learner's"@)) by {
        reveal(meta_free);
        reveal_strlit("M-W Learner's");
    }
    assert(meta_free("📕"@)) by {
        reveal(meta_free);
        reveal_strlit("📕");
    }
    assert(meta_free("Wiktionary"@)) by {
        reveal(meta_free);
        reveal_strlit("Wiktionary");
    }
    assert(meta_free("🌐"@)) by {
        reveal(meta_free);
        reveal_strlit("🌐");
    }
    assert(meta_free("Youdao"@)) by {
        reveal(meta_free);
        reveal_strlit("Youdao");
    }
    assert(meta_free("<ol>"@)) by {
        reveal(meta_free);
        reveal_strlit("<ol>");
    }
    assert(meta_free("</ol>"@)) by {
        reveal(meta_free);
        reveal_strlit("</ol>");
    }
    assert(meta_free("<li>"@)) by {
        reveal(meta_free);
        reveal_strlit("<li>");
    }
    assert(meta_free("</li>"@)) by {
        reveal(meta_free);
        reveal_strlit("</li>");
    }
    assert(meta_free("<section><h2 id=\"ee\">🔤 English-English</h2>"@)) by {
        reveal(meta_free);
        reveal_strlit("<section><h2 id=\"ee\">🔤 English-English</h2>");
    }
    assert(meta_free("</section>"@)) by {
        reveal(meta_free);
        reveal_strlit("</section>");
    }
    lemma_source_h3("📘"@, super::wordnik_url(spell), "Wordnik"@);
    lemma_source_h3("📗"@, super::learners_url(spell), "M-W Learner's"@);
    lemma_source_h3("📕"@, super::wiktionary_url(spell), "Wiktionary"@);
    lemma_source_h3("🌐"@, super::youdao_url(spell), "Youdao"@);
    lemma_wordnik_items(wordnik);
    assert(meta_free(ee_wn_part(spell, wordnik)));
    if super::has_ml(extra) {
        let m = extra.mw_learners->0;
        lemma_pos_items(super::capped(crate::text::views(m.short_defs@)), super::opt_or_empty(m.pos));
        lemma_more_if_capped(m.short_defs@.len(), "M-W Learner's"@);
    }
    assert(meta_free(ee_ml_part(spell, extra)));
    if super::has_wk(extra) {
        let w = extra.wiktionary->0;
        lemma_pair_items(super::capped(super::wk_pairs(w.senses@)));
        lemma_more_if_capped(super::wk_pairs(w.senses@).len(), "Wiktionary"@);
    }
    assert(meta_free(ee_wk_part(spell, extra)));
    if super::has_yd_ee(extra) {
        lemma_wrapped(crate::text::views(extra.youdao->0.ee@), "<li>"@, "</li>"@);
    }
    assert(meta_free(ee_yd_part(spell, extra)));
}

proof fn lemma_phrases_section(spell: Seq<char>, extra: CardSources)
    ensures
        meta_free(phrases_section_spec(spell, extra)),
{
    broadcast use lemma_meta_free_concat, lemma_lt_free_is_meta_free, lemma_esc_lt_free,
        lemma_decimal_lt_free;

    reveal(phrases_section_spec);
    assert(meta_free("<section><h2 id=\"phrases\">🧩 Phrases / Examples</h2>"@)) by {
        reveal(meta_free);
        reveal_strlit("<section><h2 id=\"phrases\">🧩 Phrases / Examples</h2>");
    }
    assert(meta_free("🌐"@)) by {
        reveal(meta_free);
        reveal_strlit("🌐");
    }
    assert(meta_free("Youdao"@)) by {
        reveal(meta_free);
        reveal_strlit("Youdao");
    }
    assert(meta_free("<ul>"@)) by {
        reveal(meta_free);
        reveal_strlit("<ul>");
    }
    assert(meta_free("</ul>"@)) by {
        reveal(meta_free);
        reveal_strlit("</ul>");
    }
    assert(meta_free("<li>"@)) by {
        reveal(meta_free);
        reveal_strlit("<li>");
    }
    assert(meta_free("</li>"@)) by {
        reveal(meta_free);
        reveal_strlit("</li>");
    }
    assert(meta_free("</section>"@)) by {
        reveal(meta_free);
        reveal_strlit("</section>");
    }
    lemma_source_h3("🌐"@, super::youdao_url(spell), "Youdao"@);
    if let Some(y) = extra.youdao {
        lemma_wrapped(crate::text::views(y.phrs@), "<li>"@, "</li>"@);
        lemma_sents(y.sents@);
    }
}

proof fn lemma_zh_section(spell: Seq<char>, ecdict: Option<StardictEntry>, extra: CardSources)
    ensures
        meta_free(zh_section_spec(spell, ecdict, extra)),
{
    broadcast use lemma_meta_free_concat, lemma_lt_free_is_meta_free, lemma_esc_lt_free,
        lemma_decimal_lt_free;

    reveal(zh_section_spec);
    reveal(zh_yd_part);
    assert(meta_free("<section><h2 id=\"zh\">📕 Chinese</h2>"@)) by {
        reveal(meta_free);
        reveal_strlit("<section><h2 id=\"zh\">📕 Chinese</h2>");
    }
    assert(meta_free("<h3>📕 ECDICT</h3><p>"@)) by {
        reveal(meta_free);
        reveal_strlit("<h3>📕 ECDICT</h3><p>");
    }
    assert(meta_free("</p>"@)) by {
        reveal(meta_free);
        reveal_strlit("</p>");
    }
    assert(meta_free("<p>"@)) by {
        reveal(meta_free);
        reveal_strlit("<p>");
    }
    assert(meta_free("<p><span class=\"src\">Web:</span> "@)) by {
        reveal(meta_free);
        reveal_strlit("<p><span class=\"src\">Web:</span> ");
    }
    assert(meta_free("🌐"@)) by {
        reveal(meta_free);
        reveal_strlit("🌐");
    }
    assert(meta_free("Youdao"@)) by {
        reveal(meta_free);
        reveal_strlit("Youdao");
    }
    assert(meta_free("</section>"@)) by {
        reveal(meta_free);
        reveal_strlit("</section>");
    }
    lemma_source_h3("🌐"@, super::youdao_url(spell), "Youdao"@);
    lemma_wrapped(super::blocks::yd_ec(extra), "<p>"@, "</p>"@);
    assert(meta_free(zh_yd_part(spell, extra)));
}

proof fn lemma_opt_para(open: Seq<char>, x: Option<String>, close: Seq<char>)
    requires
        meta_free(open),
        meta_free(close),
    ensures
        meta_free(opt_para(open, x, close)),
{
    broadcast use lemma_meta_free_concat, lemma_lt_free_is_meta_free, lemma_esc_lt_free,
        lemma_decimal_lt_free;

}

proof fn lemma_tags_section(ecdict: Option<StardictEntry>)
    ensures
        meta_free(tags_section_spec(ecdict)),
{
    broadcast use lemma_meta_free_concat, lemma_lt_free_is_meta_free, lemma_esc_lt_free,
        lemma_decimal_lt_free;

    reveal(tags_section_spec);
    assert(meta_free("<section><h2 id=\"tags\">🔀 Inflections / Tags</h2>"@)) by {
        reveal(meta_free);
        reveal_strlit("<section><h2 id=\"tags\">🔀 Inflections / Tags</h2>");
    }
    assert(meta_free("<h3>📕 ECDICT</h3>"@)) by {
        reveal(meta_free);
        reveal_strlit("<h3>📕 ECDICT</h3>");
    }
    assert(meta_free("<p>"@)) by {
        reveal(meta_free);
        reveal_strlit("<p>");
    }
    assert(meta_free("</p>"@)) by {
        reveal(meta_free);
        reveal_strlit("</p>");
    }
    assert(meta_free("<p class=\"tags\">Exam: "@)) by {
        reveal(meta_free);
        reveal_strlit("<p class=\"tags\">Exam: ");
    }
    assert(meta_free("<p>Collins "@)) by {
        reveal(meta_free);
        reveal_strlit("<p>Collins ");
    }
    assert(meta_free("⭐️"@)) by {
        reveal(meta_free);
        reveal_strlit("⭐️");
    }
    assert(meta_free("</section>"@)) by {
        reveal(meta_free);
        reveal_strlit("</section>");
    }
    if let Some(e) = ecdict {
        lemma_opt_para("<p>"@, e.exchange, "</p>"@);
        lemma_opt_para("<p class=\"tags\">Exam: "@, e.tag, "</p>"@);
        if let Some(c) = e.collins {
            lemma_repeat("⭐️"@, if c < 5 { c as nat } else { 5 });
            assert(meta_free(collins_stars(c)));
        }
    }
}

proof fn lemma_wiki_section(extra: CardSources)
    ensures
        meta_free(wiki_section_spec(extra)),
{
    broadcast use lemma_meta_free_concat, lemma_lt_free_is_meta_free, lemma_esc_lt_free,
        lemma_decimal_lt_free;

    reveal(wiki_section_spec);
    assert(meta_free("<section><h2 id=\"wiki\">📖 Wikipedia</h2><p>"@)) by {
        reveal(meta_free);
        reveal_strlit("<section><h2 id=\"wiki\">📖 Wikipedia</h2><p>");
    }
    assert(meta_free("</p>"@)) by {
        reveal(meta_free);
        reveal_strlit("</p>");
    }
    assert(meta_free("<div class=\"img-grid\">"@)) by {
        reveal(meta_free);
        reveal_strlit("<div class=\"img-grid\">");
    }
    assert(meta_free("<img src=\""@)) by {
        reveal(meta_free);
        reveal_strlit("<img src=\"");
    }
    assert(meta_free("\" loading=\"lazy\">"@)) by {
        reveal(meta_free);
        reveal_strlit("\" loading=\"lazy\">");
    }
    assert(meta_free("</div>"@)) by {
        reveal(meta_free);
        reveal_strlit("</div>");
    }
    assert(meta_free("<a class=\"wiki-link\" href=\""@)) by {
        reveal(meta_free);
        reveal_strlit("<a class=\"wiki-link\" href=\"");
    }
    assert(meta_free("\">📖 Read on Wikipedia →</a>"@)) by {
        reveal(meta_free);
        reveal_strlit("\">📖 Read on Wikipedia →</a>");
    }
    assert(meta_free("</section>"@)) by {
        reveal(meta_free);
        reveal_strlit("</section>");
    }
    if let Some(w) = extra.wikipedia {
        lemma_wrapped(crate::text::views(w.images@), "<img src=\""@, "\" loading=\"lazy\">"@);
    }
}

proof fn lemma_etym_section(spell: Seq<char>, extra: CardSources)
    ensures
        meta_free(etym_section_spec(spell, extra)),
{
    broadcast use lemma_meta_free_concat, lemma_lt_free_is_meta_free, lemma_esc_lt_free,
        lemma_decimal_lt_free;

    reveal(etym_section_spec);
    assert(meta_free("<section><h2 id=\"etym\">🌱 Etymology</h2>"@)) by {
        reveal(meta_free);
        reveal_strlit("<section><h2 id=\"etym\">🌱 Etymology</h2>");
    }
    assert(meta_free("🌐"@)) by {
        reveal(meta_free);
        reveal_strlit("🌐");
    }
    assert(meta_free("Youdao"@)) by {
        reveal(meta_free);
        reveal_strlit("Youdao");
    }
    assert(meta_free("<p>"@)) by {
        reveal(meta_free);
        reveal_strlit("<p>");
    }
    assert(meta_free("</p>"@)) by {
        reveal(meta_free);
        reveal_strlit("</p>");
    }
    assert(meta_free("</section>"@)) by {
        reveal(meta_free);
        reveal_strlit("</section>");
    }
    lemma_source_h3("🌐"@, super::youdao_url(spell), "Youdao"@);
}

proof fn lemma_pron_section(spell: Seq<char>, ecdict: Option<StardictEntry>, extra: CardSources)
    ensures
        meta_free(pron_section_spec(spell, ecdict, extra)),
{
    broadcast use lemma_meta_free_concat, lemma_lt_free_is_meta_free, lemma_esc_lt_free,
        lemma_decimal_lt_free;

    reveal(pron_section_spec);
    assert(meta_free("<section><h2 id=\"pron\">🔊 Pronunciation</h2>"@)) by {
        reveal(meta_free);
        reveal_strlit("<section><h2 id=\"pron\">🔊 Pronunciation</h2>");
    }
    assert(meta_free("<h3>📕 ECDICT</h3><p>/"@)) by {
        reveal(meta_free);
        reveal_strlit("<h3>📕 ECDICT</h3><p>/");
    }
    assert(meta_free("/</p>"@)) by {
        reveal(meta_free);
        reveal_strlit("/</p>");
    }
    assert(meta_free("📗"@)) by {
        reveal(meta_free);
        reveal_strlit("📗");
    }
    assert(meta_free("M-W Learner's"@)) by {
        reveal(meta_free);
        reveal_strlit("M-W Learner's");
    }
    assert(meta_free("<p>/"@)) by {
        reveal(meta_free);
        reveal_strlit("<p>/");
    }
    assert(meta_free("<p><a href=\""@)) by {
        reveal(meta_free);
        reveal_strlit("<p><a href=\"");
    }
    assert(meta_free("\">▶ play audio</a></p>"@)) by {
        reveal(meta_free);
        reveal_strlit("\">▶ play audio</a></p>");
    }
    assert(meta_free("</section>"@)) by {
        reveal(meta_free);
        reveal_strlit("</section>");
    }
    lemma_source_h3("📗"@, super::learners_url(spell), "M-W Learner's"@);
    lemma_opt_para("<h3>📕 ECDICT</h3><p>/"@, super::blocks::ec_phonetic(ecdict), "/</p>"@);
    lemma_opt_para("<p>/"@, super::blocks::ml_phonetic(extra), "/</p>"@);
    lemma_opt_para("<p><a href=\""@, super::blocks::ml_audio(extra), "\">▶ play audio</a></p>"@);
}

proof fn lemma_urban_section(urban: Seq<DictEntry>)
    ensures
        meta_free(urban_section_spec(urban)),
{
    broadcast use lemma_meta_free_concat, lemma_lt_free_is_meta_free, lemma_esc_lt_free,
        lemma_decimal_lt_free;

    reveal(urban_section_spec);
    assert(meta_free("<section><h2 id=\"urban\">🔥 Urban Dictionary</h2><ol>"@)) by {
        reveal(meta_free);
        reveal_strlit("<section><h2 id=\"urban\">🔥 Urban Dictionary</h2><ol>");
    }
    assert(meta_free("</ol></section>"@)) by {
        reveal(meta_free);
        reveal_strlit("</ol></section>");
    }
    lemma_urban_items(urban);
}

proof fn lemma_claude_inner(r: LlmResult)
    ensures
        meta_free(claude_inner_spec(r)),
{
    broadcast use lemma_meta_free_concat, lemma_lt_free_is_meta_free, lemma_esc_lt_free,
        lemma_decimal_lt_free;

    assert(meta_free("<h3>📖 English meaning</h3>"@)) by {
        reveal(meta_free);
        reveal_strlit("<h3>📖 English meaning</h3>");
    }
    assert(meta_free("<ol>"@)) by {
        reveal(meta_free);
        reveal_strlit("<ol>");
    }
    assert(meta_free("</ol>"@)) by {
        reveal(meta_free);
        reveal_strlit("</ol>");
    }
    assert(meta_free("<li>"@)) by {
        reveal(meta_free);
        reveal_strlit("<li>");
    }
    assert(meta_free("</li>"@)) by {
        reveal(meta_free);
        reveal_strlit("</li>");
    }
    assert(meta_free("<p><span class=\"src\">Examples by register</span></p><ul>"@)) by {
        reveal(meta_free);
        reveal_strlit("<p><span class=\"src\">Examples by register</span></p><ul>");
    }
    assert(meta_free("</ul>"@)) by {
        reveal(meta_free);
        reveal_strlit("</ul>");
    }
    assert(meta_free("<h3>💻 Tech use</h3>"@)) by {
        reveal(meta_free);
        reveal_strlit("<h3>💻 Tech use</h3>");
    }
    assert(meta_free("<p><span class=\"src\">Used in:</span> "@)) by {
        reveal(meta_free);
        reveal_strlit("<p><span class=\"src\">Used in:</span> ");
    }
    assert(meta_free("</p>"@)) by {
        reveal(meta_free);
        reveal_strlit("</p>");
    }
    assert(meta_free("<p>"@)) by {
        reveal(meta_free);
        reveal_strlit("<p>");
    }
    assert(meta_free("<h3>🀄 Chinese</h3>"@)) by {
        reveal(meta_free);
        reveal_strlit("<h3>🀄 Chinese</h3>");
    }
    assert(meta_free("<p><span class=\"src\">用法:</span> "@)) by {
        reveal(meta_free);
        reveal_strlit("<p><span class=\"src\">用法:</span> ");
    }
    if let Some(e) = r.english {
        lemma_wrapped(crate::text::views(e.definitions@), "<li>"@, "</li>"@);
        lemma_examples(e.examples@);
        assert(meta_free(en_html(e)));
    }
    if let Some(t) = r.tech {
        assert(meta_free(tech_html(t)));
    }
    if let Some(c) = r.chinese {
        assert(meta_free(zh_html(c)));
    }
}

proof fn lemma_llm_section(llm: Option<LlmResult>)
    ensures
        meta_free(llm_section_spec(llm, false)),
{
    broadcast use lemma_meta_free_concat, lemma_lt_free_is_meta_free, lemma_esc_lt_free,
        lemma_decimal_lt_free;

    reveal(llm_section_spec);
    assert(meta_free("<section><h2 id=\"llm\">🤖 LLM</h2>"@)) by {
        reveal(meta_free);
        reveal_strlit("<section><h2 id=\"llm\">🤖 LLM</h2>");
    }
    assert(meta_free("</section>"@)) by {
        reveal(meta_free);
        reveal_strlit("</section>");
    }
    if let Some(r) = llm {
        lemma_claude_inner(r);
    }
}

/// No block of a finished card opens a `<m...` tag.
pub proof fn lemma_card_body_meta_free(
    spell: Seq<char>,
    ecdict: Option<StardictEntry>,
    wordnik: Seq<DictEntry>,
    urban: Seq<DictEntry>,
    llm: Option<LlmResult>,
    extra: CardSources,
)
    ensures
        meta_free(card_body_spec(spell, ecdict, wordnik, urban, llm, extra, false)),
{
    broadcast use lemma_meta_free_concat, lemma_lt_free_is_meta_free, lemma_esc_lt_free,
        lemma_decimal_lt_free;

    lemma_llm_section(llm);
    lemma_ee_section(spell, wordnik, extra);
    lemma_syn_section(spell, extra);
    lemma_phrases_section(spell, extra);
    lemma_zh_section(spell, ecdict, extra);
    lemma_tags_section(ecdict);
    lemma_wiki_section(extra);
    lemma_etym_section(spell, extra);
    lemma_pron_section(spell, ecdict, extra);
    lemma_urban_section(urban);
}

proof fn lemma_link_items(ls: Seq<(Seq<char>, Seq<char>)>)
    ensures
        meta_free(link_items(ls)),
    decreases ls.len(),
{
    broadcast use lemma_meta_free_concat, lemma_lt_free_is_meta_free, lemma_esc_lt_free,
        lemma_decimal_lt_free;

    if ls.len() > 0 {
        lemma_link_items(ls.drop_last());
    assert(meta_free("· <a href=\""@)) by {
        reveal(meta_free);
        reveal_strlit("· <a href=\"");
    }
    assert(meta_free("\">"@)) by {
        reveal(meta_free);
        reveal_strlit("\">");
    }
    assert(meta_free("</a> "@)) by {
        reveal(meta_free);
        reveal_strlit("</a> ");
    }
    }
}

proof fn lemma_toc(body: Seq<char>)
    ensures
        meta_free(toc_spec(body)),
{
    broadcast use lemma_meta_free_concat, lemma_lt_free_is_meta_free, lemma_esc_lt_free,
        lemma_decimal_lt_free;

    assert(meta_free("<a href=\"#"@)) by {
        reveal(meta_free);
        reveal_strlit("<a href=\"#");
    }
    assert(meta_free("\">"@)) by {
        reveal(meta_free);
        reveal_strlit("\">");
    }
    assert(meta_free("</a>"@)) by {
        reveal(meta_free);
        reveal_strlit("</a>");
    }
    assert(meta_free("<nav class=\"toc\">"@)) by {
        reveal(meta_free);
        reveal_strlit("<nav class=\"toc\">");
    }
    assert(meta_free("</nav>"@)) by {
        reveal(meta_free);
        reveal_strlit("</nav>");
    }
    assert(meta_free("llm"@)) by {
        reveal(meta_free);
        reveal_strlit("llm");
    }
    assert(meta_free("🤖 LLM"@)) by {
        reveal(meta_free);
        reveal_strlit("🤖 LLM");
    }
    assert(meta_free("ee"@)) by {
        reveal(meta_free);
        reveal_strlit("ee");
    }
    assert(meta_free("🔤 EE"@)) by {
        reveal(meta_free);
        reveal_strlit("🔤 EE");
    }
    assert(meta_free("syn"@)) by {
        reveal(meta_free);
        reveal_strlit("syn");
    }
    assert(meta_free("🔄 Syn/Ant"@)) by {
        reveal(meta_free);
        reveal_strlit("🔄 Syn/Ant");
    }
    assert(meta_free("phrases"@)) by {
        reveal(meta_free);
        reveal_strlit("phrases");
    }
    assert(meta_free("🧩 Phrases"@)) by {
        reveal(meta_free);
        reveal_strlit("🧩 Phrases");
    }
    assert(meta_free("zh"@)) by {
        reveal(meta_free);
        reveal_strlit("zh");
    }
    assert(meta_free("📕 中文"@)) by {
        reveal(meta_free);
        reveal_strlit("📕 中文");
    }
    assert(meta_free("tags"@)) by {
        reveal(meta_free);
        reveal_strlit("tags");
    }
    assert(meta_free("🔀 Tags"@)) by {
        reveal(meta_free);
        reveal_strlit("🔀 Tags");
    }
    assert(meta_free("wiki"@)) by {
        reveal(meta_free);
        reveal_strlit("wiki");
    }
    assert(meta_free("📖 Wiki"@)) by {
        reveal(meta_free);
        reveal_strlit("📖 Wiki");
    }
    assert(meta_free("etym"@)) by {
        reveal(meta_free);
        reveal_strlit("etym");
    }
    assert(meta_free("🌱 Etym"@)) by {
        reveal(meta_free);
        reveal_strlit("🌱 Etym");
    }
    assert(meta_free("pron"@)) by {
        reveal(meta_free);
        reveal_strlit("pron");
    }
    assert(meta_free("🔊 Pron"@)) by {
        reveal(meta_free);
        reveal_strlit("🔊 Pron");
    }
    assert(meta_free("urban"@)) by {
        reveal(meta_free);
        reveal_strlit("urban");
    }
    assert(meta_free("🔥 Urban"@)) by {
        reveal(meta_free);
        reveal_strlit("🔥 Urban");
    }
    assert(meta_free(toc_links_spec(body)));
}

/// The style sheet is plain CSS, with no `<`. Verus reads a string's
/// characters only from the literal itself, so the sheet's text stands
/// here once more.
proof fn lemma_style_lt_free()
    ensures
        lt_free(STYLE@),
{

    reveal_strlit("\
body{font:15px/1.6 -apple-system,Helvetica,sans-serif;background:#1e1e1e;\
color:#e8e8e8;margin:0;padding:22px 26px;}\
h1{font-size:24px;margin:0 0 2px;}\
.ph{color:#999;margin:0 0 8px;}\
.links{margin:0 0 14px;font-size:12px;color:#888;}\
.links a{margin-right:14px;white-space:nowrap;}\
.toc{margin:0 0 22px;padding:10px 12px;background:#262626;\
border-radius:6px;font-size:13px;}\
.toc a{margin-right:14px;white-space:nowrap;color:#9cf;\
text-decoration:none;}\
.toc a:hover{color:#cdf;}\
section{margin-top:30px;padding-top:6px;border-top:1px solid #2a2a2a;}\
section:first-of-type{margin-top:0;border-top:0;padding-top:0;}\
h2{font-size:15px;margin:0 -26px 8px;padding:8px 26px 6px;\
background:#1e1e1e;border-bottom:1px solid #3a3a3a;color:#9ad;\
letter-spacing:.3px;position:sticky;top:0;z-index:5;}\
h3{font-size:13px;margin:14px 0 4px;color:#cdb;letter-spacing:.3px;}\
.sense-row{display:grid;grid-template-columns:max-content 1fr;\
gap:6px 12px;align-items:baseline;margin:4px 0;}\
.sense-row .src{white-space:nowrap;}\
h4{font-size:12px;margin:10px 0 2px;color:#a9d;font-weight:600;\
text-transform:none;}\
h4 a{color:#a9d;text-decoration:none;border-bottom:1px dotted #678;}\
h4 a:hover{color:#cdf;}\
ol,ul{margin:0;padding-left:22px;}\
li{margin:0 0 8px;}\
.src{color:#888;font-size:12px;}\
.src a{color:#9ab;}\
.meta{display:block;color:#888;font-size:12px;margin-top:2px;}\
.meta a{color:#9ab;text-decoration:none;border-bottom:1px dotted #555;}\
.meta a:hover{color:#cdf;}\
.tags{color:#c9a;}\
em{color:#c8a;font-style:normal;}\
a{color:#7bf;}\
p{margin:6px 0;}\
.wiki-link{display:inline-block;margin-top:10px;padding:6px 12px;\
background:#2a3b4d;border-radius:4px;color:#9cf;text-decoration:none;\
font-size:13px;}\
.wiki-link:hover{background:#3a4b5d;color:#cdf;}\
.img-grid{display:flex;flex-wrap:wrap;gap:8px;margin:6px 0;}\
.img-grid img{display:block;height:120px;width:auto;border-radius:4px;\
background:#222;}");
}

/// The page of a finished card, after its opening
/// `<!DOCTYPE html><html><head><meta charset="utf-8">`, opens no `<m...`
/// tag.
pub proof fn lemma_finished_page_rest_meta_free(
    spell: Seq<char>,
    ecdict: Option<StardictEntry>,
    extra: CardSources,
    body: Seq<char>,
)
    requires
        meta_free(body),
    ensures
        meta_free(page_rest(spell, ecdict, extra, body)),
{
    broadcast use lemma_meta_free_concat, lemma_lt_free_is_meta_free, lemma_esc_lt_free,
        lemma_decimal_lt_free;

    assert(meta_free("<style>"@)) by {
        reveal(meta_free);
        reveal_strlit("<style>");
    }
    assert(meta_free("</style></head><body><h1>"@)) by {
        reveal(meta_free);
        reveal_strlit("</style></head><body><h1>");
    }
    assert(meta_free("</h1>"@)) by {
        reveal(meta_free);
        reveal_strlit("</h1>");
    }
    assert(meta_free("<p class=\"ph\">/"@)) by {
        reveal(meta_free);
        reveal_strlit("<p class=\"ph\">/");
    }
    assert(meta_free("/</p>"@)) by {
        reveal(meta_free);
        reveal_strlit("/</p>");
    }
    assert(meta_free("<p class=\"links\">📚 More on "@)) by {
        reveal(meta_free);
        reveal_strlit("<p class=\"links\">📚 More on ");
    }
    assert(meta_free("</p>"@)) by {
        reveal(meta_free);
        reveal_strlit("</p>");
    }
    assert(meta_free("</body></html>"@)) by {
        reveal(meta_free);
        reveal_strlit("</body></html>");
    }
    lemma_style_lt_free();
    lemma_link_items(super::external_links_spec(spell));
    lemma_toc(body);
    assert(meta_free(phonetic_html(super::page::head_phonetic(ecdict, extra))));
    assert(meta_free(links_bar_spec(spell)));
}

proof fn lemma_finished_page_split(
    spell: Seq<char>,
    ecdict: Option<StardictEntry>,
    extra: CardSources,
    body: Seq<char>,
)
    ensures
        page_spec(spell, ecdict, extra, false, body) == "<!DOCTYPE html><html><head><meta charset=\"utf-8\">"@
            + page_rest(spell, ecdict, extra, body),
{
    assert(page_spec(spell, ecdict, extra, false, body) =~= "<!DOCTYPE html><html><head><meta charset=\"utf-8\">"@
        + page_rest(spell, ecdict, extra, body));
}

/// Everything of a finished page after the character set.
pub open spec fn page_rest(
    spell: Seq<char>,
    ecdict: Option<StardictEntry>,
    extra: CardSources,
    body: Seq<char>,
) -> Seq<char> {
    "<style>"@ + STYLE@ + "</style></head><body><h1>"@ + esc_spec(spell) + "</h1>"@ + phonetic_html(
        super::page::head_phonetic(ecdict, extra),
    ) + links_bar_spec(spell) + toc_spec(body) + body + "</body></html>"@
}

/// Text that opens no `<m...` tag, after the page's opening up to the
/// character set, never holds the reload tag.
proof fn lemma_no_refresh_after_head(rest: Seq<char>)
    requires
        meta_free(rest),
    ensures
        !contains_spec(
            "<!DOCTYPE html><html><head><meta charset=\"utf-8\">"@ + rest,
            REFRESH_META@,
        ),
{
    let head = "<!DOCTYPE html><html><head><meta charset=\"utf-8\">"@;
    let page = head + rest;
    let r = REFRESH_META@;
    reveal_strlit("<!DOCTYPE html><html><head><meta charset=\"utf-8\">");
    reveal_strlit("<meta http-equiv=\"refresh\" content=\"2\">");
    assert(r[0] == '<' && r[1] == 'm' && r[6] == 'h');
    if contains_spec(page, r) {
        let i = choose|i: int| 0 <= i && i + r.len() <= page.len() && #[trigger] page.subrange(
            i,
            i + r.len(),
        ) == r;
        let w = page.subrange(i, i + r.len());
        assert(w[0] == page[i] && w[1] == page[i + 1] && w[6] == page[i + 6]);
        if i >= head.len() {
            reveal(meta_free);
            assert(rest[i - head.len()] == page[i]);
            assert(rest[i - head.len() + 1] == page[i + 1]);
        } else {
            assert(page[i] == head[i]);
            assert(i + 1 < head.len());
            assert(page[i + 1] == head[i + 1]);
            assert(i == 27);
            assert(page[i + 6] == head[i + 6]);
        }
    }
}

/// A finished card (the model's answer in, or not asked for) holds no
/// request to reload: the reload tag appears nowhere in its page.
pub proof fn lemma_finished_card_never_refreshes(
    spell: Seq<char>,
    ecdict: Option<StardictEntry>,
    wordnik: Seq<DictEntry>,
    urban: Seq<DictEntry>,
    llm: Option<LlmResult>,
    extra: CardSources,
)
    ensures
        !contains_spec(
            page_spec(
                spell,
                ecdict,
                extra,
                false,
                card_body_spec(spell, ecdict, wordnik, urban, llm, extra, false),
            ),
            REFRESH_META@,
        ),
{
    let body = card_body_spec(spell, ecdict, wordnik, urban, llm, extra, false);
    lemma_card_body_meta_free(spell, ecdict, wordnik, urban, llm, extra);
    lemma_finished_page_rest_meta_free(spell, ecdict, extra, body);
    lemma_finished_page_split(spell, ecdict, extra, body);
    lemma_no_refresh_after_head(page_rest(spell, ecdict, extra, body));
}

} // verus!
