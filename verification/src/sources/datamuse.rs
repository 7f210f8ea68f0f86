//! Datamuse's synonyms, antonyms and related words.
use vstd::prelude::*;

verus! {

/// What the card shows from Datamuse.
#[derive(Debug, Clone, PartialEq)]
pub struct DatamuseData {
    pub synonyms: Vec<String>,
    pub antonyms: Vec<String>,
    pub related: Vec<String>,
}

impl Default for DatamuseData {
    fn default() -> (r: Self)
        ensures
            r.synonyms@.len() == 0 && r.antonyms@.len() == 0 && r.related@.len() == 0,
    {
        DatamuseData { synonyms: Vec::new(), antonyms: Vec::new(), related: Vec::new() }
    }
}

/// The three word lists (`rel_syn`, `rel_ant`, `ml` queries), a failed
/// query counting as empty; `None` when all three are empty.
pub fn datamuse_from_lists(synonyms: Vec<String>, antonyms: Vec<String>, related: Vec<String>) -> (r:
    Option<DatamuseData>)
    ensures
        (synonyms@.len() == 0 && antonyms@.len() == 0 && related@.len() == 0) ==> r is None,
        !(synonyms@.len() == 0 && antonyms@.len() == 0 && related@.len() == 0) ==> (r matches Some(
            d,
        ) && d.synonyms@ == synonyms@ && d.antonyms@ == antonyms@ && d.related@ == related@),
{
    if synonyms.len() == 0 && antonyms.len() == 0 && related.len() == 0 {
        None
    } else {
        Some(DatamuseData { synonyms, antonyms, related })
    }
}

} // verus!
