# alfred-eudic

An Alfred workflow helper that looks a word up in several dictionaries at
once: the local ECDICT database, Wordnik, Urban Dictionary, a language
model, and, for the Quick Look card, Youdao, Wikipedia, Datamuse,
Wiktionary and Merriam-Webster.

## Layout

- `src/` is the verified library. Every decision of a lookup is there,
  with its contract: how a query is read, when the cache is bypassed and
  what it stores, how each source's answer becomes rows, which rows the
  Alfred list shows in which order, and the whole HTML card.
  - `text.rs`, `url.rs`: string primitives and percent-encoding.
  - `json.rs`: a JSON document and lookups along key/position paths.
  - `cache.rs`: cache tables, freshness, and the cache-aware fetch steps.
  - `sources/`: each source's answer turned into rows or card data.
  - `llm/`: the prompt, the answer envelope and the answer's JSON object.
  - `dictionary.rs`: ECDICT records and the prefix search parameters.
  - `render.rs`, `search.rs`: the rows of the Alfred list.
  - `preview/`: the Quick Look card.
- `app/` is the command around it: arguments, HTTP, SQLite, the card
  file, background refresh and Alfred's JSON output.
- `tests/` exercises the library.

## Configuration

`WORDNIK_API_KEY`, `ANTHROPIC_API_KEY`, `MW_LEARNERS_API_KEY` and
`MW_THESAURUS_API_KEY` enable the keyed sources; `ANTHROPIC_MODEL` names
the model the language-model section asks. `ALFRED_EUDIC_DATABASE_FILE`
points at the ECDICT database.
