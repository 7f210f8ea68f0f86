//! The prompt sent to the language model.
use vstd::prelude::*;
use crate::text::{lemma_replace_char_leaves_none, push_str, replace_char, replace_char_spec};

verus! {

/// System instruction: a trilingual lexicographer answering in JSON.
pub const SYSTEM: &'static str = "You are a structured trilingual lexicographer that returns three \
sections per word: English meaning + examples, tech-domain usage (if any), and Chinese \
translation + usage notes. Output JSON only — no prose, no markdown fences.";

/// The user message up to the word.
pub const USER_HEAD: &'static str = "Word: \"";

/// The user message after the word and its closing quote: the JSON shape
/// and the rules.
pub const USER_RULES: &'static str = ". Output exactly this JSON shape (all three sections; populate every field):\n\
         {\n\
         \"english\": {\n\
         \"definitions\": [\"plain-English sense 1\", \"plain-English sense 2 (if any)\"],\n\
         \"examples\": [\n\
         {\"scenario\":\"internet\",\"sentence\":\"\"},\n\
         {\"scenario\":\"software\",\"sentence\":\"\"},\n\
         {\"scenario\":\"casual\",\"sentence\":\"\"},\n\
         {\"scenario\":\"office\",\"sentence\":\"\"},\n\
         {\"scenario\":\"email\",\"sentence\":\"\"},\n\
         {\"scenario\":\"slack\",\"sentence\":\"\"}\n\
         ]\n\
         },\n\
         \"tech\": {\n\
         \"is_tech_term\": false,\n\
         \"domains\": [],\n\
         \"explanation\": null\n\
         },\n\
         \"chinese\": {\n\
         \"translations\": [\"释义1\",\"释义2\"],\n\
         \"usage_notes\": \"使用场景说明（中文）\"\n\
         }\n\
         }\n\n\
         Rules:\n\
         A) ENGLISH section\n\
           - `definitions`: 1-3 plain-English senses, each <=15 words, no jargon.\n\
           - `examples`: all 6 entries, sentences <=20 English words each, using the target word \
         naturally in that register. Keep the 6 scenario keys exactly as listed and in that order.\n\
              · internet: online/social-media post or comment\n\
              · software: software-development context (code review, bug, design, docs)\n\
              · casual: relaxed everyday spoken conversation\n\
              · office: workplace conversation or meeting\n\
              · email: professional email\n\
              · slack: short Slack/IM message (informal, may use lower-case)\n\
         B) TECH section — decide whether this word is a tech proper noun OR has a recognised \
         usage in tech/internet/software-development/product/marketing contexts.\n\
           - If yes: set `is_tech_term` to true. List 1-8 specific sub-domains in `domains` — \
         free-form names, fine-grained (e.g. \"SQL\", \"system architecture\", \"agent design\", \
         \"JavaScript\", \"React\", \"product management\", \"DevOps\", \"SRE\", \"security\", \
         \"data engineering\", \"ML\", \"marketing\", \"UX\", \"growth\", \"crypto\", …). Pick the \
         domains that are most accurate; you decide the granularity. Then fill `explanation` with \
         a concise English description of the tech meaning(s) (<=60 words).\n\
           - If no: set `is_tech_term` to false, `domains` to [], `explanation` to null.\n\
         C) CHINESE section\n\
           - `translations`: 1-3 中文释义 (each <=20 Chinese chars).\n\
           - `usage_notes`: 1-2 句中文，描述这个词常用于什么情境、语体偏正式/口语、有何感情色彩。\n\
         D) Output ONLY the JSON. No prose. No markdown fences. Use null only where explicitly \
         allowed above; never leave a required string empty.";

/// The user message for a word: the word (double quotes turned into
/// single quotes, so it cannot close the quoted field) between the head
/// and the rules.
pub open spec fn user_spec(spell: Seq<char>) -> Seq<char> {
    USER_HEAD@ + replace_char_spec(spell, '"', "'"@) + "\""@ + USER_RULES@
}

/// The user message opens with `Word: "`, then the word with no double
/// quote left in it, then the closing quote and the rules: a word can
/// never end the quoted field early.
pub proof fn lemma_user_quotes_word_safely(spell: Seq<char>)
    ensures
        user_spec(spell).take(USER_HEAD@.len() as int) == USER_HEAD@,
        !replace_char_spec(spell, '"', "'"@).contains('"'),
        user_spec(spell).subrange(
            USER_HEAD@.len() as int,
            USER_HEAD@.len() + replace_char_spec(spell, '"', "'"@).len() as int,
        ) == replace_char_spec(spell, '"', "'"@),
        user_spec(spell)[USER_HEAD@.len() + replace_char_spec(spell, '"', "'"@).len() as int]
            == '"',
        user_spec(spell).skip(USER_HEAD@.len() + replace_char_spec(spell, '"', "'"@).len() as int + 1)
            == USER_RULES@,
{
    reveal_strlit("'");
    reveal_strlit("\"");
    reveal_strlit("Word: \"");
    assert(!"'"@.contains('"')) by {
        assert("'"@.len() == 1);
        assert("'"@[0] == '\'');
    }
    lemma_replace_char_leaves_none(spell, '"', "'"@);
    let w = replace_char_spec(spell, '"', "'"@);
    let u = user_spec(spell);
    assert(u.take(USER_HEAD@.len() as int) =~= USER_HEAD@);
    assert(u.subrange(USER_HEAD@.len() as int, USER_HEAD@.len() + w.len() as int) =~= w);
    assert(u.skip(USER_HEAD@.len() + w.len() as int + 1) =~= USER_RULES@);
}

pub fn user(spell: &str) -> (r: String)
    ensures
        r@ == user_spec(spell@),
{
    let mut r = String::new();
    push_str(&mut r, USER_HEAD);
    let w = replace_char(spell, '"', "'");
    push_str(&mut r, w.as_str());
    push_str(&mut r, "\"");
    push_str(&mut r, USER_RULES);
    r
}

} // verus!
