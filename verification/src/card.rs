//! The card-only sources gathered for one word.
use vstd::prelude::*;
use crate::sources::datamuse::DatamuseData;
use crate::sources::mw::{MwLearnersData, MwThesaurusData};
use crate::sources::wikipedia::WikipediaSummary;
use crate::sources::wiktionary::WiktionaryData;
use crate::sources::youdao::YoudaoData;

verus! {

/// What each card-only source returned; a failing or empty source is
/// `None` and its block is skipped.
#[derive(Debug, Clone, PartialEq)]
pub struct CardSources {
    pub youdao: Option<YoudaoData>,
    pub wikipedia: Option<WikipediaSummary>,
    pub datamuse: Option<DatamuseData>,
    pub wiktionary: Option<WiktionaryData>,
    pub mw_learners: Option<MwLearnersData>,
    pub mw_thesaurus: Option<MwThesaurusData>,
}

impl Default for CardSources {
    fn default() -> (r: Self)
        ensures
            r.youdao is None && r.wikipedia is None && r.datamuse is None && r.wiktionary is None
                && r.mw_learners is None && r.mw_thesaurus is None,
    {
        CardSources {
            youdao: None,
            wikipedia: None,
            datamuse: None,
            wiktionary: None,
            mw_learners: None,
            mw_thesaurus: None,
        }
    }
}

/// API keys of the keyed card sources; an empty key skips the source.
#[derive(Debug, Clone)]
pub struct CardKeys {
    pub mw_learners: String,
    pub mw_thesaurus: String,
}

} // verus!
