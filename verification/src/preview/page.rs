//! The whole card page: the language-model block, every other block in
//! priority order, and the head with title, phonetic, links and contents.
use vstd::prelude::*;
use crate::text::{contains_spec, esc_spec, push_escaped, push_str};
use crate::card::CardSources;
use crate::dictionary::StardictEntry;
use crate::llm::response::LlmResult;
use crate::sources::DictEntry;
use super::blocks::{
    ec_phonetic, etym_section_spec, ml_phonetic, phrases_section_spec, pron_section_spec,
    push_etym_section, push_phrases_section, push_pron_section, push_tags_section,
    push_urban_section, push_wiki_section, push_zh_section, tags_section_spec,
    urban_section_spec, wiki_section_spec, zh_section_spec,
};
use super::{
    build_toc, claude_inner_spec, ee_section_spec, external_links, external_links_spec,
    link_views, push_ee_section, push_syn_section, render_claude_inner, syn_section_spec,
    toc_link_spec, toc_spec,
};

verus! {

/// The card's style sheet.
pub const STYLE: &'static str = "\
body{font:15px/1.6 -apple-system,Helvetica,sans-serif;background:#1e1e1e;\
color:#e8e8e8;margin:0;padding:22px 26px;}\
h1{font-size:24px;margin:0 0 2px;}\
.ph{color:#999;margin:0 0 8px;}\
.links{margin:0 0 14px;font-size:12px;color:#888;}\
.links a{margin-right:14px;white-space:nowrap;}\
.toc{margin:0 0 22px;padding:10px 12px;background:#262626;\
border-radius:6px;font-size:13px;}\
.toc a{margin-right:14px;white-space:nowrap;color:#9cf;\
text-decoration:none;}\
.toc a:hover{color:#cdf;}\
section{margin-top:30px;padding-top:6px;border-top:1px solid #2a2a2a;}\
section:first-of-type{margin-top:0;border-top:0;padding-top:0;}\
h2{font-size:15px;margin:0 -26px 8px;padding:8px 26px 6px;\
background:#1e1e1e;border-bottom:1px solid #3a3a3a;color:#9ad;\
letter-spacing:.3px;position:sticky;top:0;z-index:5;}\
h3{font-size:13px;margin:14px 0 4px;color:#cdb;letter-spacing:.3px;}\
.sense-row{display:grid;grid-template-columns:max-content 1fr;\
gap:6px 12px;align-items:baseline;margin:4px 0;}\
.sense-row .src{white-space:nowrap;}\
h4{font-size:12px;margin:10px 0 2px;color:#a9d;font-weight:600;\
text-transform:none;}\
h4 a{color:#a9d;text-decoration:none;border-bottom:1px dotted #678;}\
h4 a:hover{color:#cdf;}\
ol,ul{margin:0;padding-left:22px;}\
li{margin:0 0 8px;}\
.src{color:#888;font-size:12px;}\
.src a{color:#9ab;}\
.meta{display:block;color:#888;font-size:12px;margin-top:2px;}\
.meta a{color:#9ab;text-decoration:none;border-bottom:1px dotted #555;}\
.meta a:hover{color:#cdf;}\
.tags{color:#c9a;}\
em{color:#c8a;font-style:normal;}\
a{color:#7bf;}\
p{margin:6px 0;}\
.wiki-link{display:inline-block;margin-top:10px;padding:6px 12px;\
background:#2a3b4d;border-radius:4px;color:#9cf;text-decoration:none;\
font-size:13px;}\
.wiki-link:hover{background:#3a4b5d;color:#cdf;}\
.img-grid{display:flex;flex-wrap:wrap;gap:8px;margin:6px 0;}\
.img-grid img{display:block;height:120px;width:auto;border-radius:4px;\
background:#222;}";

/// What the language-model block shows while the answer is still being
/// fetched in the background.
pub const LLM_LOADING_HTML: &'static str = "<p><span class=\"src\">⏳ Still thinking…</span> \
     this section will appear automatically in ~15–25 seconds. \
     You can keep scrolling the rest of the card.</p>";

/// Makes the page reload itself every two seconds.
pub const REFRESH_META: &'static str = "<meta http-equiv=\"refresh\" content=\"2\">";

/// The language-model block, rendered first: the placeholder while
/// loading (the answer is then ignored), else the answer's sub-sections
/// when it has any.
#[verifier::opaque]
pub open spec fn llm_section_spec(llm: Option<LlmResult>, loading: bool) -> Seq<char> {
    if loading {
        "<section><h2 id=\"llm\">🤖 LLM</h2>"@ + LLM_LOADING_HTML@ + "</section>"@
    } else {
        match llm {
            Some(r) => if claude_inner_spec(r).len() > 0 {
                "<section><h2 id=\"llm\">🤖 LLM</h2>"@ + claude_inner_spec(r) + "</section>"@
            } else {
                Seq::<char>::empty()
            },
            None => Seq::<char>::empty(),
        }
    }
}

/// All blocks of the card, in priority order; a block without data
/// contributes nothing.
pub open spec fn card_body_spec(
    spell: Seq<char>,
    ecdict: Option<StardictEntry>,
    wordnik: Seq<DictEntry>,
    urban: Seq<DictEntry>,
    llm: Option<LlmResult>,
    extra: CardSources,
    loading: bool,
) -> Seq<char> {
    llm_section_spec(llm, loading) + ee_section_spec(spell, wordnik, extra) + syn_section_spec(
        spell,
        extra,
    ) + phrases_section_spec(spell, extra) + zh_section_spec(spell, ecdict, extra)
        + tags_section_spec(ecdict) + wiki_section_spec(extra) + etym_section_spec(spell, extra)
        + pron_section_spec(spell, ecdict, extra) + urban_section_spec(urban)
}

/// The phonetic under the title: ECDICT's when non-empty, else M-W
/// Learner's.
pub open spec fn head_phonetic(ecdict: Option<StardictEntry>, extra: CardSources) -> Option<
    Seq<char>,
> {
    match ec_phonetic(ecdict) {
        Some(p) if p@.len() > 0 => Some(p@),
        _ => match ml_phonetic(extra) {
            Some(p) => Some(p@),
            None => None,
        },
    }
}

pub open spec fn phonetic_html(ph: Option<Seq<char>>) -> Seq<char> {
    match ph {
        Some(p) => "<p class=\"ph\">/"@ + esc_spec(p) + "/</p>"@,
        None => Seq::<char>::empty(),
    }
}

/// The links of the quick-jump bar.
pub open spec fn link_items(ls: Seq<(Seq<char>, Seq<char>)>) -> Seq<char>
    decreases ls.len(),
{
    if ls.len() == 0 {
        seq![]
    } else {
        link_items(ls.drop_last()) + "· <a href=\""@ + esc_spec(ls.last().1) + "\">"@ + esc_spec(
            ls.last().0,
        ) + "</a> "@
    }
}

/// The always-present bar of links to the word on the sources' sites.
pub open spec fn links_bar_spec(spell: Seq<char>) -> Seq<char> {
    "<p class=\"links\">📚 More on "@ + link_items(external_links_spec(spell)) + "</p>"@
}

/// The whole page around a non-empty body.
pub open spec fn page_spec(
    spell: Seq<char>,
    ecdict: Option<StardictEntry>,
    extra: CardSources,
    loading: bool,
    body: Seq<char>,
) -> Seq<char> {
    "<!DOCTYPE html><html><head><meta charset=\"utf-8\">"@ + (if loading {
        REFRESH_META@
    } else {
        Seq::<char>::empty()
    }) + "<style>"@ + STYLE@ + "</style></head><body><h1>"@ + esc_spec(spell) + "</h1>"@
        + phonetic_html(head_phonetic(ecdict, extra)) + links_bar_spec(spell) + toc_spec(body)
        + body + "</body></html>"@
}

fn push_llm_section(out: &mut String, llm: &Option<LlmResult>, loading: bool)
    ensures
        final(out)@ == old(out)@ + llm_section_spec(*llm, loading),
{
    reveal(llm_section_spec);
    let ghost start = out@;
    if loading {
        push_str(out, "<section><h2 id=\"llm\">🤖 LLM</h2>");
        push_str(out, LLM_LOADING_HTML);
        push_str(out, "</section>");
    } else {
        match llm {
            Some(r) => {
                let inner = render_claude_inner(r);
                if inner.as_str().unicode_len() > 0 {
                    push_str(out, "<section><h2 id=\"llm\">🤖 LLM</h2>");
                    push_str(out, inner.as_str());
                    push_str(out, "</section>");
                }
            },
            None => {},
        }
    }
    assert(out@ == start + llm_section_spec(*llm, loading));
}

/// Every block of the card, in priority order.
pub fn card_body(
    spell: &str,
    ecdict: &Option<StardictEntry>,
    wordnik: &Vec<DictEntry>,
    urban: &Vec<DictEntry>,
    llm: &Option<LlmResult>,
    extra: &CardSources,
    llm_loading: bool,
) -> (r: String)
    ensures
        r@ == card_body_spec(spell@, *ecdict, wordnik@, urban@, *llm, *extra, llm_loading),
{
    let mut body = String::new();
    push_llm_section(&mut body, llm, llm_loading);
    push_ee_section(&mut body, spell, wordnik, extra);
    push_syn_section(&mut body, spell, extra);
    push_phrases_section(&mut body, spell, extra);
    push_zh_section(&mut body, spell, ecdict, extra);
    push_tags_section(&mut body, ecdict);
    push_wiki_section(&mut body, extra);
    push_etym_section(&mut body, spell, extra);
    push_pron_section(&mut body, spell, ecdict, extra);
    push_urban_section(&mut body, urban);
    body
}

fn push_phonetic(out: &mut String, ecdict: &Option<StardictEntry>, extra: &CardSources)
    ensures
        final(out)@ == old(out)@ + phonetic_html(head_phonetic(*ecdict, *extra)),
{
    let ec = match ecdict {
        Some(e) => match &e.phonetic {
            Some(p) => if p.as_str().unicode_len() > 0 {
                Some(p)
            } else {
                None
            },
            None => None,
        },
        None => None,
    };
    let ph = match ec {
        Some(p) => Some(p),
        None => match &extra.mw_learners {
            Some(m) => match &m.phonetic {
                Some(p) => Some(p),
                None => None,
            },
            None => None,
        },
    };
    match ph {
        Some(p) => {
            push_str(out, "<p class=\"ph\">/");
            push_escaped(out, p.as_str());
            push_str(out, "/</p>");
        },
        None => {
            assert(out@ == out@ + Seq::<char>::empty());
        },
    }
}

fn push_links_bar(out: &mut String, spell: &str)
    ensures
        final(out)@ == old(out)@ + links_bar_spec(spell@),
{
    let links = external_links(spell);
    let ghost lv = link_views(links@);
    push_str(out, "<p class=\"links\">📚 More on ");
    let ghost s2 = out@;
    let mut i: usize = 0;
    while i < links.len()
        invariant
            i <= links.len(),
            lv == link_views(links@),
            lv.len() == links@.len(),
            out@ == s2 + link_items(lv.take(i as int)),
        decreases links.len() - i,
    {
        assert(lv.take((i + 1) as int).drop_last() == lv.take(i as int));
        let (name, url) = &links[i];
        push_str(out, "· <a href=\"");
        push_escaped(out, url.as_str());
        push_str(out, "\">");
        push_escaped(out, name);
        push_str(out, "</a> ");
        i += 1;
    }
    assert(lv.take(links.len() as int) == lv);
    push_str(out, "</p>");
}

/// The card as one HTML page, or `None` when no block has data. While
/// `llm_loading`, the language-model answer is ignored, its block shows a
/// placeholder, and the page reloads itself every two seconds until the
/// finished card replaces it.
pub fn render_card(
    spell: &str,
    ecdict: &Option<StardictEntry>,
    wordnik: &Vec<DictEntry>,
    urban: &Vec<DictEntry>,
    llm: &Option<LlmResult>,
    extra: &CardSources,
    llm_loading: bool,
) -> (r: Option<String>)
    ensures
        ({
            let body = card_body_spec(spell@, *ecdict, wordnik@, urban@, *llm, *extra, llm_loading);
            match r {
                None => body.len() == 0,
                Some(html) => body.len() > 0 && html@ == page_spec(
                    spell@,
                    *ecdict,
                    *extra,
                    llm_loading,
                    body,
                ),
            }
        }),
{
    let body = card_body(spell, ecdict, wordnik, urban, llm, extra, llm_loading);
    if body.as_str().unicode_len() == 0 {
        return None;
    }
    let mut html = String::new();
    push_str(&mut html, "<!DOCTYPE html><html><head><meta charset=\"utf-8\">");
    if llm_loading {
        push_str(&mut html, REFRESH_META);
    }
    push_str(&mut html, "<style>");
    push_str(&mut html, STYLE);
    push_str(&mut html, "</style></head><body><h1>");
    push_escaped(&mut html, spell);
    push_str(&mut html, "</h1>");
    push_phonetic(&mut html, ecdict, extra);
    push_links_bar(&mut html, spell);
    let toc = build_toc(body.as_str());
    push_str(&mut html, toc.as_str());
    push_str(&mut html, body.as_str());
    push_str(&mut html, "</body></html>");
    Some(html)
}

/// While the model is awaited, the card does not depend on any answer
/// passed in: the placeholder stands in for it.
pub proof fn lemma_loading_ignores_answer(
    spell: Seq<char>,
    ecdict: Option<StardictEntry>,
    wordnik: Seq<DictEntry>,
    urban: Seq<DictEntry>,
    a: Option<LlmResult>,
    b: Option<LlmResult>,
    extra: CardSources,
)
    ensures
        card_body_spec(spell, ecdict, wordnik, urban, a, extra, true) == card_body_spec(
            spell,
            ecdict,
            wordnik,
            urban,
            b,
            extra,
            true,
        ),
{
    reveal(llm_section_spec);
}

/// With no data from any source, no answer and nothing loading, there is
/// no card.
pub proof fn lemma_no_data_no_card(spell: Seq<char>, extra: CardSources)
    requires
        extra.youdao is None && extra.wikipedia is None && extra.datamuse is None
            && extra.wiktionary is None && extra.mw_learners is None && extra.mw_thesaurus is None,
    ensures
        card_body_spec(spell, None, seq![], seq![], None, extra, false).len() == 0,
{
    reveal(llm_section_spec);
    reveal(ee_section_spec);
    reveal(syn_section_spec);
    reveal(phrases_section_spec);
    reveal(zh_section_spec);
    reveal(tags_section_spec);
    reveal(wiki_section_spec);
    reveal(etym_section_spec);
    reveal(pron_section_spec);
    reveal(urban_section_spec);
}

/// While the model is awaited, the card always exists and its first
/// block is the placeholder.
pub proof fn lemma_loading_card_starts_with_placeholder(
    spell: Seq<char>,
    ecdict: Option<StardictEntry>,
    wordnik: Seq<DictEntry>,
    urban: Seq<DictEntry>,
    llm: Option<LlmResult>,
    extra: CardSources,
)
    ensures
        card_body_spec(spell, ecdict, wordnik, urban, llm, extra, true).len() > 0,
        card_body_spec(spell, ecdict, wordnik, urban, llm, extra, true).take(
            llm_section_spec(llm, true).len() as int,
        ) == "<section><h2 id=\"llm\">🤖 LLM</h2>"@ + LLM_LOADING_HTML@ + "</section>"@,
{
    reveal_strlit("</section>");
    reveal(llm_section_spec);
    let head = llm_section_spec(llm, true);
    let body = card_body_spec(spell, ecdict, wordnik, urban, llm, extra, true);
    assert(head.len() > 0);
    assert(body.take(head.len() as int) =~= head);
}

/// The page's head: while the model is awaited it asks the viewer to
/// reload every two seconds, right after the character set; once the
/// answer is in, the style sheet follows the character set directly and
/// no reload is asked for there.
pub proof fn lemma_page_refreshes_only_while_loading(
    spell: Seq<char>,
    ecdict: Option<StardictEntry>,
    extra: CardSources,
    loading: bool,
    body: Seq<char>,
)
    ensures
        loading ==> page_spec(spell, ecdict, extra, loading, body).take(
            "<!DOCTYPE html><html><head><meta charset=\"utf-8\">"@.len() + REFRESH_META@.len() as int,
        ) == "<!DOCTYPE html><html><head><meta charset=\"utf-8\">"@ + REFRESH_META@,
        !loading ==> page_spec(spell, ecdict, extra, loading, body).take(
            "<!DOCTYPE html><html><head><meta charset=\"utf-8\">"@.len() + "<style>"@.len() as int,
        ) == "<!DOCTYPE html><html><head><meta charset=\"utf-8\">"@ + "<style>"@,
{
    let head = "<!DOCTYPE html><html><head><meta charset=\"utf-8\">"@;
    let page = page_spec(spell, ecdict, extra, loading, body);
    if loading {
        assert(page.take(head.len() + REFRESH_META@.len() as int) =~= head + REFRESH_META@);
    } else {
        assert(page.take(head.len() + "<style>"@.len() as int) =~= head + "<style>"@);
    }
}

/// The needle the table of contents looks for.
pub open spec fn id_needle(id: Seq<char>) -> Seq<char> {
    "id=\""@ + id + "\""@
}

proof fn lemma_block_is_listed(
    body: Seq<char>,
    before: Seq<char>,
    block: Seq<char>,
    after: Seq<char>,
    head: Seq<char>,
    id: Seq<char>,
    label: Seq<char>,
)
    requires
        body == before + block + after,
        head.len() <= block.len(),
        block.subrange(0, head.len() as int) == head,
        13 + id_needle(id).len() <= head.len(),
        head.subrange(13, 13 + id_needle(id).len() as int) == id_needle(id),
    ensures
        toc_link_spec(body, id, label).len() > 0,
{
    reveal_strlit("</a>");
    let n = id_needle(id);
    let i = before.len() + 13int;
    assert(block.subrange(13, 13 + n.len() as int) =~= head.subrange(13, 13 + n.len() as int));
    assert(body.subrange(i, i + n.len() as int) =~= block.subrange(13, 13 + n.len() as int));
    assert(contains_spec(body, n));
}

proof fn lemma_opening_names(head: Seq<char>, id: Seq<char>)
    requires
        13 + id_needle(id).len() <= head.len(),
        head.subrange(0, 13) == "<section><h2 "@,
        head.subrange(13, 17) == "id=\""@,
        head.subrange(17, 17 + id.len() as int) == id,
        head[17 + id.len() as int] == '"',
    ensures
        head.subrange(13, 13 + id_needle(id).len() as int) == id_needle(id),
{
    reveal_strlit("id=\"");
    reveal_strlit("\"");
    let n = id_needle(id);
    assert(n.len() == 5 + id.len());
    assert forall|k: int| 0 <= k < n.len() implies head.subrange(13, 13 + n.len() as int)[k] == n[k] by {
        if k < 4 {
            assert(head.subrange(13, 17)[k] == head[13 + k]);
        } else if k < 4 + id.len() as int {
            assert(head.subrange(17, 17 + id.len() as int)[k - 4] == head[13 + k]);
        }
    }
    assert(head.subrange(13, 13 + n.len() as int) =~= n);
}

/// The table of contents links the block `id`.
pub open spec fn toc_lists(body: Seq<char>, id: Seq<char>, label: Seq<char>) -> bool {
    toc_link_spec(body, id, label).len() > 0
}

proof fn lemma_listed_by_head(
    body: Seq<char>,
    before: Seq<char>,
    block: Seq<char>,
    after: Seq<char>,
    head: Seq<char>,
    id: Seq<char>,
    label: Seq<char>,
)
    requires
        body == before + block + after,
        head.len() <= block.len(),
        block.subrange(0, head.len() as int) == head,
        18 + id.len() <= head.len(),
        head.subrange(0, 13) == "<section><h2 "@,
        head.subrange(13, 17) == "id=\""@,
        head.subrange(17, 17 + id.len() as int) == id,
        head[17 + id.len() as int] == '"',
    ensures
        toc_lists(body, id, label),
{
    reveal_strlit("id=\"");
    reveal_strlit("\"");
    lemma_opening_names(head, id);
    lemma_block_is_listed(body, before, block, after, head, id, label);
}

/// Every block that appears in the card is linked from its table of
/// contents (and, by the contents' own definition, no other is).
pub proof fn lemma_present_blocks_are_listed(
    spell: Seq<char>,
    ecdict: Option<StardictEntry>,
    wordnik: Seq<DictEntry>,
    urban: Seq<DictEntry>,
    llm: Option<LlmResult>,
    extra: CardSources,
    loading: bool,
)
    ensures
        llm_section_spec(llm, loading).len() > 0 ==> toc_lists(
            card_body_spec(spell, ecdict, wordnik, urban, llm, extra, loading),
            "llm"@,
            "🤖 LLM"@,
        ),
        ee_section_spec(spell, wordnik, extra).len() > 0 ==> toc_lists(
            card_body_spec(spell, ecdict, wordnik, urban, llm, extra, loading),
            "ee"@,
            "🔤 EE"@,
        ),
        syn_section_spec(spell, extra).len() > 0 ==> toc_lists(
            card_body_spec(spell, ecdict, wordnik, urban, llm, extra, loading),
            "syn"@,
            "🔄 Syn/Ant"@,
        ),
        phrases_section_spec(spell, extra).len() > 0 ==> toc_lists(
            card_body_spec(spell, ecdict, wordnik, urban, llm, extra, loading),
            "phrases"@,
            "🧩 Phrases"@,
        ),
        zh_section_spec(spell, ecdict, extra).len() > 0 ==> toc_lists(
            card_body_spec(spell, ecdict, wordnik, urban, llm, extra, loading),
            "zh"@,
            "📕 中文"@,
        ),
        tags_section_spec(ecdict).len() > 0 ==> toc_lists(
            card_body_spec(spell, ecdict, wordnik, urban, llm, extra, loading),
            "tags"@,
            "🔀 Tags"@,
        ),
        wiki_section_spec(extra).len() > 0 ==> toc_lists(
            card_body_spec(spell, ecdict, wordnik, urban, llm, extra, loading),
            "wiki"@,
            "📖 Wiki"@,
        ),
        etym_section_spec(spell, extra).len() > 0 ==> toc_lists(
            card_body_spec(spell, ecdict, wordnik, urban, llm, extra, loading),
            "etym"@,
            "🌱 Etym"@,
        ),
        pron_section_spec(spell, ecdict, extra).len() > 0 ==> toc_lists(
            card_body_spec(spell, ecdict, wordnik, urban, llm, extra, loading),
            "pron"@,
            "🔊 Pron"@,
        ),
        urban_section_spec(urban).len() > 0 ==> toc_lists(
            card_body_spec(spell, ecdict, wordnik, urban, llm, extra, loading),
            "urban"@,
            "🔥 Urban"@,
        ),
{
    lemma_lists_llm(spell, ecdict, wordnik, urban, llm, extra, loading);
    lemma_lists_ee(spell, ecdict, wordnik, urban, llm, extra, loading);
    lemma_lists_syn(spell, ecdict, wordnik, urban, llm, extra, loading);
    lemma_lists_phrases(spell, ecdict, wordnik, urban, llm, extra, loading);
    lemma_lists_zh(spell, ecdict, wordnik, urban, llm, extra, loading);
    lemma_lists_tags(spell, ecdict, wordnik, urban, llm, extra, loading);
    lemma_lists_wiki(spell, ecdict, wordnik, urban, llm, extra, loading);
    lemma_lists_etym(spell, ecdict, wordnik, urban, llm, extra, loading);
    lemma_lists_pron(spell, ecdict, wordnik, urban, llm, extra, loading);
    lemma_lists_urban(spell, ecdict, wordnik, urban, llm, extra, loading);
}

proof fn lemma_lists_llm(
    spell: Seq<char>,
    ecdict: Option<StardictEntry>,
    wordnik: Seq<DictEntry>,
    urban: Seq<DictEntry>,
    llm: Option<LlmResult>,
    extra: CardSources,
    loading: bool,
)
    ensures
        llm_section_spec(llm, loading).len() > 0 ==> toc_lists(
            card_body_spec(spell, ecdict, wordnik, urban, llm, extra, loading),
            "llm"@,
            "🤖 LLM"@,
        ),
{
    let s1 = llm_section_spec(llm, loading);
    let s2 = ee_section_spec(spell, wordnik, extra);
    let s3 = syn_section_spec(spell, extra);
    let s4 = phrases_section_spec(spell, extra);
    let s5 = zh_section_spec(spell, ecdict, extra);
    let s6 = tags_section_spec(ecdict);
    let s7 = wiki_section_spec(extra);
    let s8 = etym_section_spec(spell, extra);
    let s9 = pron_section_spec(spell, ecdict, extra);
    let s10 = urban_section_spec(urban);
    let body = card_body_spec(spell, ecdict, wordnik, urban, llm, extra, loading);
    if s1.len() > 0 {
        reveal(llm_section_spec);
        let head = "<section><h2 id=\"llm\">🤖 LLM</h2>"@;
        assert(head.len() >= 21 && head.subrange(0, 13) == "<section><h2 "@ && head.subrange(13, 17)
            == "id=\""@ && head.subrange(17, 20) == "llm"@ && head[20] == '"') by {
            reveal_strlit("<section><h2 id=\"llm\">🤖 LLM</h2>");
            reveal_strlit("<section><h2 ");
            reveal_strlit("id=\"");
            reveal_strlit("llm");
            assert(head.subrange(0, 13) =~= "<section><h2 "@);
            assert(head.subrange(13, 17) =~= "id=\""@);
            assert(head.subrange(17, 20) =~= "llm"@);
        }
        assert(s1.subrange(0, head.len() as int) =~= head);
        let before = Seq::<char>::empty();
        let after = s2 + s3 + s4 + s5 + s6 + s7 + s8 + s9 + s10;
        assert(body =~= before + s1 + after);
        reveal_strlit("llm");
        lemma_listed_by_head(body, before, s1, after, head, "llm"@, "🤖 LLM"@);
    }
}

proof fn lemma_lists_ee(
    spell: Seq<char>,
    ecdict: Option<StardictEntry>,
    wordnik: Seq<DictEntry>,
    urban: Seq<DictEntry>,
    llm: Option<LlmResult>,
    extra: CardSources,
    loading: bool,
)
    ensures
        ee_section_spec(spell, wordnik, extra).len() > 0 ==> toc_lists(
            card_body_spec(spell, ecdict, wordnik, urban, llm, extra, loading),
            "ee"@,
            "🔤 EE"@,
        ),
{
    let s1 = llm_section_spec(llm, loading);
    let s2 = ee_section_spec(spell, wordnik, extra);
    let s3 = syn_section_spec(spell, extra);
    let s4 = phrases_section_spec(spell, extra);
    let s5 = zh_section_spec(spell, ecdict, extra);
    let s6 = tags_section_spec(ecdict);
    let s7 = wiki_section_spec(extra);
    let s8 = etym_section_spec(spell, extra);
    let s9 = pron_section_spec(spell, ecdict, extra);
    let s10 = urban_section_spec(urban);
    let body = card_body_spec(spell, ecdict, wordnik, urban, llm, extra, loading);
    if s2.len() > 0 {
        reveal(ee_section_spec);
        let head = "<section><h2 id=\"ee\">🔤 English-English</h2>"@;
        assert(head.len() >= 20 && head.subrange(0, 13) == "<section><h2 "@ && head.subrange(13, 17)
            == "id=\""@ && head.subrange(17, 19) == "ee"@ && head[19] == '"') by {
            reveal_strlit("<section><h2 id=\"ee\">🔤 English-English</h2>");
            reveal_strlit("<section><h2 ");
            reveal_strlit("id=\"");
            reveal_strlit("ee");
            assert(head.subrange(0, 13) =~= "<section><h2 "@);
            assert(head.subrange(13, 17) =~= "id=\""@);
            assert(head.subrange(17, 19) =~= "ee"@);
        }
        assert(s2.subrange(0, head.len() as int) =~= head);
        let before = s1;
        let after = s3 + s4 + s5 + s6 + s7 + s8 + s9 + s10;
        assert(body =~= before + s2 + after);
        reveal_strlit("ee");
        lemma_listed_by_head(body, before, s2, after, head, "ee"@, "🔤 EE"@);
    }
}

proof fn lemma_lists_syn(
    spell: Seq<char>,
    ecdict: Option<StardictEntry>,
    wordnik: Seq<DictEntry>,
    urban: Seq<DictEntry>,
    llm: Option<LlmResult>,
    extra: CardSources,
    loading: bool,
)
    ensures
        syn_section_spec(spell, extra).len() > 0 ==> toc_lists(
            card_body_spec(spell, ecdict, wordnik, urban, llm, extra, loading),
            "syn"@,
            "🔄 Syn/Ant"@,
        ),
{
    let s1 = llm_section_spec(llm, loading);
    let s2 = ee_section_spec(spell, wordnik, extra);
    let s3 = syn_section_spec(spell, extra);
    let s4 = phrases_section_spec(spell, extra);
    let s5 = zh_section_spec(spell, ecdict, extra);
    let s6 = tags_section_spec(ecdict);
    let s7 = wiki_section_spec(extra);
    let s8 = etym_section_spec(spell, extra);
    let s9 = pron_section_spec(spell, ecdict, extra);
    let s10 = urban_section_spec(urban);
    let body = card_body_spec(spell, ecdict, wordnik, urban, llm, extra, loading);
    if s3.len() > 0 {
        reveal(syn_section_spec);
        let head = "<section><h2 id=\"syn\">🔄 Synonyms / Antonyms / Related</h2>"@;
        assert(head.len() >= 21 && head.subrange(0, 13) == "<section><h2 "@ && head.subrange(13, 17)
            == "id=\""@ && head.subrange(17, 20) == "syn"@ && head[20] == '"') by {
            reveal_strlit("<section><h2 id=\"syn\">🔄 Synonyms / Antonyms / Related</h2>");
            reveal_strlit("<section><h2 ");
            reveal_strlit("id=\"");
            reveal_strlit("syn");
            assert(head.subrange(0, 13) =~= "<section><h2 "@);
            assert(head.subrange(13, 17) =~= "id=\""@);
            assert(head.subrange(17, 20) =~= "syn"@);
        }
        assert(s3.subrange(0, head.len() as int) =~= head);
        let before = s1 + s2;
        let after = s4 + s5 + s6 + s7 + s8 + s9 + s10;
        assert(body =~= before + s3 + after);
        reveal_strlit("syn");
        lemma_listed_by_head(body, before, s3, after, head, "syn"@, "🔄 Syn/Ant"@);
    }
}

proof fn lemma_lists_phrases(
    spell: Seq<char>,
    ecdict: Option<StardictEntry>,
    wordnik: Seq<DictEntry>,
    urban: Seq<DictEntry>,
    llm: Option<LlmResult>,
    extra: CardSources,
    loading: bool,
)
    ensures
        phrases_section_spec(spell, extra).len() > 0 ==> toc_lists(
            card_body_spec(spell, ecdict, wordnik, urban, llm, extra, loading),
            "phrases"@,
            "🧩 Phrases"@,
        ),
{
    let s1 = llm_section_spec(llm, loading);
    let s2 = ee_section_spec(spell, wordnik, extra);
    let s3 = syn_section_spec(spell, extra);
    let s4 = phrases_section_spec(spell, extra);
    let s5 = zh_section_spec(spell, ecdict, extra);
    let s6 = tags_section_spec(ecdict);
    let s7 = wiki_section_spec(extra);
    let s8 = etym_section_spec(spell, extra);
    let s9 = pron_section_spec(spell, ecdict, extra);
    let s10 = urban_section_spec(urban);
    let body = card_body_spec(spell, ecdict, wordnik, urban, llm, extra, loading);
    if s4.len() > 0 {
        reveal(phrases_section_spec);
        let head = "<section><h2 id=\"phrases\">🧩 Phrases / Examples</h2>"@;
        assert(head.len() >= 25 && head.subrange(0, 13) == "<section><h2 "@ && head.subrange(13, 17)
            == "id=\""@ && head.subrange(17, 24) == "phrases"@ && head[24] == '"') by {
            reveal_strlit("<section><h2 id=\"phrases\">🧩 Phrases / Examples</h2>");
            reveal_strlit("<section><h2 ");
            reveal_strlit("id=\"");
            reveal_strlit("phrases");
            assert(head.subrange(0, 13) =~= "<section><h2 "@);
            assert(head.subrange(13, 17) =~= "id=\""@);
            assert(head.subrange(17, 24) =~= "phrases"@);
        }
        assert(s4.subrange(0, head.len() as int) =~= head);
        let before = s1 + s2 + s3;
        let after = s5 + s6 + s7 + s8 + s9 + s10;
        assert(body =~= before + s4 + after);
        reveal_strlit("phrases");
        lemma_listed_by_head(body, before, s4, after, head, "phrases"@, "🧩 Phrases"@);
    }
}

proof fn lemma_lists_zh(
    spell: Seq<char>,
    ecdict: Option<StardictEntry>,
    wordnik: Seq<DictEntry>,
    urban: Seq<DictEntry>,
    llm: Option<LlmResult>,
    extra: CardSources,
    loading: bool,
)
    ensures
        zh_section_spec(spell, ecdict, extra).len() > 0 ==> toc_lists(
            card_body_spec(spell, ecdict, wordnik, urban, llm, extra, loading),
            "zh"@,
            "📕 中文"@,
        ),
{
    let s1 = llm_section_spec(llm, loading);
    let s2 = ee_section_spec(spell, wordnik, extra);
    let s3 = syn_section_spec(spell, extra);
    let s4 = phrases_section_spec(spell, extra);
    let s5 = zh_section_spec(spell, ecdict, extra);
    let s6 = tags_section_spec(ecdict);
    let s7 = wiki_section_spec(extra);
    let s8 = etym_section_spec(spell, extra);
    let s9 = pron_section_spec(spell, ecdict, extra);
    let s10 = urban_section_spec(urban);
    let body = card_body_spec(spell, ecdict, wordnik, urban, llm, extra, loading);
    if s5.len() > 0 {
        reveal(zh_section_spec);
        let head = "<section><h2 id=\"zh\">📕 Chinese</h2>"@;
        assert(head.len() >= 20 && head.subrange(0, 13) == "<section><h2 "@ && head.subrange(13, 17)
            == "id=\""@ && head.subrange(17, 19) == "zh"@ && head[19] == '"') by {
            reveal_strlit("<section><h2 id=\"zh\">📕 Chinese</h2>");
            reveal_strlit("<section><h2 ");
            reveal_strlit("id=\"");
            reveal_strlit("zh");
            assert(head.subrange(0, 13) =~= "<section><h2 "@);
            assert(head.subrange(13, 17) =~= "id=\""@);
            assert(head.subrange(17, 19) =~= "zh"@);
        }
        assert(s5.subrange(0, head.len() as int) =~= head);
        let before = s1 + s2 + s3 + s4;
        let after = s6 + s7 + s8 + s9 + s10;
        assert(body =~= before + s5 + after);
        reveal_strlit("zh");
        lemma_listed_by_head(body, before, s5, after, head, "zh"@, "📕 中文"@);
    }
}

proof fn lemma_lists_tags(
    spell: Seq<char>,
    ecdict: Option<StardictEntry>,
    wordnik: Seq<DictEntry>,
    urban: Seq<DictEntry>,
    llm: Option<LlmResult>,
    extra: CardSources,
    loading: bool,
)
    ensures
        tags_section_spec(ecdict).len() > 0 ==> toc_lists(
            card_body_spec(spell, ecdict, wordnik, urban, llm, extra, loading),
            "tags"@,
            "🔀 Tags"@,
        ),
{
    let s1 = llm_section_spec(llm, loading);
    let s2 = ee_section_spec(spell, wordnik, extra);
    let s3 = syn_section_spec(spell, extra);
    let s4 = phrases_section_spec(spell, extra);
    let s5 = zh_section_spec(spell, ecdict, extra);
    let s6 = tags_section_spec(ecdict);
    let s7 = wiki_section_spec(extra);
    let s8 = etym_section_spec(spell, extra);
    let s9 = pron_section_spec(spell, ecdict, extra);
    let s10 = urban_section_spec(urban);
    let body = card_body_spec(spell, ecdict, wordnik, urban, llm, extra, loading);
    if s6.len() > 0 {
        reveal(tags_section_spec);
        let head = "<section><h2 id=\"tags\">🔀 Inflections / Tags</h2>"@;
        assert(head.len() >= 22 && head.subrange(0, 13) == "<section><h2 "@ && head.subrange(13, 17)
            == "id=\""@ && head.subrange(17, 21) == "tags"@ && head[21] == '"') by {
            reveal_strlit("<section><h2 id=\"tags\">🔀 Inflections / Tags</h2>");
            reveal_strlit("<section><h2 ");
            reveal_strlit("id=\"");
            reveal_strlit("tags");
            assert(head.subrange(0, 13) =~= "<section><h2 "@);
            assert(head.subrange(13, 17) =~= "id=\""@);
            assert(head.subrange(17, 21) =~= "tags"@);
        }
        assert(s6.subrange(0, head.len() as int) =~= head);
        let before = s1 + s2 + s3 + s4 + s5;
        let after = s7 + s8 + s9 + s10;
        assert(body =~= before + s6 + after);
        reveal_strlit("tags");
        lemma_listed_by_head(body, before, s6, after, head, "tags"@, "🔀 Tags"@);
    }
}

proof fn lemma_lists_wiki(
    spell: Seq<char>,
    ecdict: Option<StardictEntry>,
    wordnik: Seq<DictEntry>,
    urban: Seq<DictEntry>,
    llm: Option<LlmResult>,
    extra: CardSources,
    loading: bool,
)
    ensures
        wiki_section_spec(extra).len() > 0 ==> toc_lists(
            card_body_spec(spell, ecdict, wordnik, urban, llm, extra, loading),
            "wiki"@,
            "📖 Wiki"@,
        ),
{
    let s1 = llm_section_spec(llm, loading);
    let s2 = ee_section_spec(spell, wordnik, extra);
    let s3 = syn_section_spec(spell, extra);
    let s4 = phrases_section_spec(spell, extra);
    let s5 = zh_section_spec(spell, ecdict, extra);
    let s6 = tags_section_spec(ecdict);
    let s7 = wiki_section_spec(extra);
    let s8 = etym_section_spec(spell, extra);
    let s9 = pron_section_spec(spell, ecdict, extra);
    let s10 = urban_section_spec(urban);
    let body = card_body_spec(spell, ecdict, wordnik, urban, llm, extra, loading);
    if s7.len() > 0 {
        reveal(wiki_section_spec);
        let head = "<section><h2 id=\"wiki\">📖 Wikipedia</h2><p>"@;
        assert(head.len() >= 22 && head.subrange(0, 13) == "<section><h2 "@ && head.subrange(13, 17)
            == "id=\""@ && head.subrange(17, 21) == "wiki"@ && head[21] == '"') by {
            reveal_strlit("<section><h2 id=\"wiki\">📖 Wikipedia</h2><p>");
            reveal_strlit("<section><h2 ");
            reveal_strlit("id=\"");
            reveal_strlit("wiki");
            assert(head.subrange(0, 13) =~= "<section><h2 "@);
            assert(head.subrange(13, 17) =~= "id=\""@);
            assert(head.subrange(17, 21) =~= "wiki"@);
        }
        assert(s7.subrange(0, head.len() as int) =~= head);
        let before = s1 + s2 + s3 + s4 + s5 + s6;
        let after = s8 + s9 + s10;
        assert(body =~= before + s7 + after);
        reveal_strlit("wiki");
        lemma_listed_by_head(body, before, s7, after, head, "wiki"@, "📖 Wiki"@);
    }
}

proof fn lemma_lists_etym(
    spell: Seq<char>,
    ecdict: Option<StardictEntry>,
    wordnik: Seq<DictEntry>,
    urban: Seq<DictEntry>,
    llm: Option<LlmResult>,
    extra: CardSources,
    loading: bool,
)
    ensures
        etym_section_spec(spell, extra).len() > 0 ==> toc_lists(
            card_body_spec(spell, ecdict, wordnik, urban, llm, extra, loading),
            "etym"@,
            "🌱 Etym"@,
        ),
{
    let s1 = llm_section_spec(llm, loading);
    let s2 = ee_section_spec(spell, wordnik, extra);
    let s3 = syn_section_spec(spell, extra);
    let s4 = phrases_section_spec(spell, extra);
    let s5 = zh_section_spec(spell, ecdict, extra);
    let s6 = tags_section_spec(ecdict);
    let s7 = wiki_section_spec(extra);
    let s8 = etym_section_spec(spell, extra);
    let s9 = pron_section_spec(spell, ecdict, extra);
    let s10 = urban_section_spec(urban);
    let body = card_body_spec(spell, ecdict, wordnik, urban, llm, extra, loading);
    if s8.len() > 0 {
        reveal(etym_section_spec);
        let head = "<section><h2 id=\"etym\">🌱 Etymology</h2>"@;
        assert(head.len() >= 22 && head.subrange(0, 13) == "<section><h2 "@ && head.subrange(13, 17)
            == "id=\""@ && head.subrange(17, 21) == "etym"@ && head[21] == '"') by {
            reveal_strlit("<section><h2 id=\"etym\">🌱 Etymology</h2>");
            reveal_strlit("<section><h2 ");
            reveal_strlit("id=\"");
            reveal_strlit("etym");
            assert(head.subrange(0, 13) =~= "<section><h2 "@);
            assert(head.subrange(13, 17) =~= "id=\""@);
            assert(head.subrange(17, 21) =~= "etym"@);
        }
        assert(s8.subrange(0, head.len() as int) =~= head);
        let before = s1 + s2 + s3 + s4 + s5 + s6 + s7;
        let after = s9 + s10;
        assert(body =~= before + s8 + after);
        reveal_strlit("etym");
        lemma_listed_by_head(body, before, s8, after, head, "etym"@, "🌱 Etym"@);
    }
}

proof fn lemma_lists_pron(
    spell: Seq<char>,
    ecdict: Option<StardictEntry>,
    wordnik: Seq<DictEntry>,
    urban: Seq<DictEntry>,
    llm: Option<LlmResult>,
    extra: CardSources,
    loading: bool,
)
    ensures
        pron_section_spec(spell, ecdict, extra).len() > 0 ==> toc_lists(
            card_body_spec(spell, ecdict, wordnik, urban, llm, extra, loading),
            "pron"@,
            "🔊 Pron"@,
        ),
{
    let s1 = llm_section_spec(llm, loading);
    let s2 = ee_section_spec(spell, wordnik, extra);
    let s3 = syn_section_spec(spell, extra);
    let s4 = phrases_section_spec(spell, extra);
    let s5 = zh_section_spec(spell, ecdict, extra);
    let s6 = tags_section_spec(ecdict);
    let s7 = wiki_section_spec(extra);
    let s8 = etym_section_spec(spell, extra);
    let s9 = pron_section_spec(spell, ecdict, extra);
    let s10 = urban_section_spec(urban);
    let body = card_body_spec(spell, ecdict, wordnik, urban, llm, extra, loading);
    if s9.len() > 0 {
        reveal(pron_section_spec);
        let head = "<section><h2 id=\"pron\">🔊 Pronunciation</h2>"@;
        assert(head.len() >= 22 && head.subrange(0, 13) == "<section><h2 "@ && head.subrange(13, 17)
            == "id=\""@ && head.subrange(17, 21) == "pron"@ && head[21] == '"') by {
            reveal_strlit("<section><h2 id=\"pron\">🔊 Pronunciation</h2>");
            reveal_strlit("<section><h2 ");
            reveal_strlit("id=\"");
            reveal_strlit("pron");
            assert(head.subrange(0, 13) =~= "<section><h2 "@);
            assert(head.subrange(13, 17) =~= "id=\""@);
            assert(head.subrange(17, 21) =~= "pron"@);
        }
        assert(s9.subrange(0, head.len() as int) =~= head);
        let before = s1 + s2 + s3 + s4 + s5 + s6 + s7 + s8;
        let after = s10;
        assert(body =~= before + s9 + after);
        reveal_strlit("pron");
        lemma_listed_by_head(body, before, s9, after, head, "pron"@, "🔊 Pron"@);
    }
}

proof fn lemma_lists_urban(
    spell: Seq<char>,
    ecdict: Option<StardictEntry>,
    wordnik: Seq<DictEntry>,
    urban: Seq<DictEntry>,
    llm: Option<LlmResult>,
    extra: CardSources,
    loading: bool,
)
    ensures
        urban_section_spec(urban).len() > 0 ==> toc_lists(
            card_body_spec(spell, ecdict, wordnik, urban, llm, extra, loading),
            "urban"@,
            "🔥 Urban"@,
        ),
{
    let s1 = llm_section_spec(llm, loading);
    let s2 = ee_section_spec(spell, wordnik, extra);
    let s3 = syn_section_spec(spell, extra);
    let s4 = phrases_section_spec(spell, extra);
    let s5 = zh_section_spec(spell, ecdict, extra);
    let s6 = tags_section_spec(ecdict);
    let s7 = wiki_section_spec(extra);
    let s8 = etym_section_spec(spell, extra);
    let s9 = pron_section_spec(spell, ecdict, extra);
    let s10 = urban_section_spec(urban);
    let body = card_body_spec(spell, ecdict, wordnik, urban, llm, extra, loading);
    if s10.len() > 0 {
        reveal(urban_section_spec);
        let head = "<section><h2 id=\"urban\">🔥 Urban Dictionary</h2><ol>"@;
        assert(head.len() >= 23 && head.subrange(0, 13) == "<section><h2 "@ && head.subrange(13, 17)
            == "id=\""@ && head.subrange(17, 22) == "urban"@ && head[22] == '"') by {
            reveal_strlit("<section><h2 id=\"urban\">🔥 Urban Dictionary</h2><ol>");
            reveal_strlit("<section><h2 ");
            reveal_strlit("id=\"");
            reveal_strlit("urban");
            assert(head.subrange(0, 13) =~= "<section><h2 "@);
            assert(head.subrange(13, 17) =~= "id=\""@);
            assert(head.subrange(17, 22) =~= "urban"@);
        }
        assert(s10.subrange(0, head.len() as int) =~= head);
        let before = s1 + s2 + s3 + s4 + s5 + s6 + s7 + s8 + s9;
        let after = Seq::<char>::empty();
        assert(body =~= before + s10 + after);
        reveal_strlit("urban");
        lemma_listed_by_head(body, before, s10, after, head, "urban"@, "🔥 Urban"@);
    }
}

} // verus!
