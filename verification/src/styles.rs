//! The BJCP beer-style catalog and its case-insensitive search.
//!
//! The catalog is display-only reference material: records decoded from a
//! bundled JSON dataset, looked up by name while a recipe is edited. None of
//! its numbers feed the brewing math.

use crate::text::{contains_substring, has_substring, lower_of, to_lowercase};
use vstd::prelude::*;

verus! {

/// One style record of the BJCP catalog. Every descriptive field is optional:
/// the dataset leaves out what a style's entry does not give.
pub struct BeerStyle {
    pub name: String,
    pub number: Option<String>,
    pub category: Option<String>,
    pub categorynumber: Option<String>,
    pub overallimpression: Option<String>,
    pub aroma: Option<String>,
    pub appearance: Option<String>,
    pub flavor: Option<String>,
    pub mouthfeel: Option<String>,
    pub comments: Option<String>,
    pub history: Option<String>,
    pub characteristicingredients: Option<String>,
    pub stylecomparison: Option<String>,
    pub strengthclassifications: Option<String>,
    pub currentlydefinedtypes: Option<String>,
    pub entryinstructions: Option<String>,
    pub ibumin: Option<String>,
    pub ibumax: Option<String>,
    pub ogmin: Option<String>,
    pub ogmax: Option<String>,
    pub fgmin: Option<String>,
    pub fgmax: Option<String>,
    pub abvmin: Option<String>,
    pub abvmax: Option<String>,
    pub srmmin: Option<String>,
    pub srmmax: Option<String>,
    pub commercialexamples: Option<String>,
    pub tags: Option<String>,
    pub opened: bool,
}

fn clone_field(field: &Option<String>) -> (cloned: Option<String>)
    ensures
        cloned == *field,
{
    match field {
        Some(text) => Some(text.clone()),
        None => None,
    }
}

impl Clone for BeerStyle {
    fn clone(&self) -> (cloned: Self)
        ensures
            cloned == *self,
    {
        BeerStyle {
            name: self.name.clone(),
            number: clone_field(&self.number),
            category: clone_field(&self.category),
            categorynumber: clone_field(&self.categorynumber),
            overallimpression: clone_field(&self.overallimpression),
            aroma: clone_field(&self.aroma),
            appearance: clone_field(&self.appearance),
            flavor: clone_field(&self.flavor),
            mouthfeel: clone_field(&self.mouthfeel),
            comments: clone_field(&self.comments),
            history: clone_field(&self.history),
            characteristicingredients: clone_field(&self.characteristicingredients),
            stylecomparison: clone_field(&self.stylecomparison),
            strengthclassifications: clone_field(&self.strengthclassifications),
            currentlydefinedtypes: clone_field(&self.currentlydefinedtypes),
            entryinstructions: clone_field(&self.entryinstructions),
            ibumin: clone_field(&self.ibumin),
            ibumax: clone_field(&self.ibumax),
            ogmin: clone_field(&self.ogmin),
            ogmax: clone_field(&self.ogmax),
            fgmin: clone_field(&self.fgmin),
            fgmax: clone_field(&self.fgmax),
            abvmin: clone_field(&self.abvmin),
            abvmax: clone_field(&self.abvmax),
            srmmin: clone_field(&self.srmmin),
            srmmax: clone_field(&self.srmmax),
            commercialexamples: clone_field(&self.commercialexamples),
            tags: clone_field(&self.tags),
            opened: self.opened,
        }
    }
}

/// A style matches a search prompt when the lower-cased prompt occurs in the
/// lower-cased style name.
pub open spec fn style_matches(name: Seq<char>, prompt: Seq<char>) -> bool {
    has_substring(lower_of(name), lower_of(prompt))
}

/// The styles whose names match the prompt, kept in catalog order.
pub open spec fn search_results(styles: Seq<BeerStyle>, prompt: Seq<char>) -> Seq<BeerStyle>
    decreases styles.len(),
{
    if styles.len() == 0 {
        Seq::empty()
    } else {
        let rest = search_results(styles.drop_last(), prompt);
        if style_matches(styles.last().name@, prompt) {
            rest.push(styles.last())
        } else {
            rest
        }
    }
}

/// Whether one style name matches the prompt, ignoring case on both sides.
pub fn name_matches(name: &str, prompt: &str) -> (found: bool)
    ensures
        found == style_matches(name@, prompt@),
{
    let lowered_name = to_lowercase(name);
    let lowered_prompt = to_lowercase(prompt);
    contains_substring(lowered_name.as_str(), lowered_prompt.as_str())
}

/// Filters the catalog down to the styles whose names match the prompt.
pub fn search_styles(prompt: &str, styles: &[BeerStyle]) -> (found: Vec<BeerStyle>)
    ensures
        found@ == search_results(styles@, prompt@),
{
    let mut found: Vec<BeerStyle> = Vec::new();
    let mut i: usize = 0;
    while i < styles.len()
        invariant
            i <= styles@.len(),
            found@ == search_results(styles@.subrange(0, i as int), prompt@),
        decreases styles@.len() - i,
    {
        proof {
            assert(styles@.subrange(0, i + 1).drop_last() =~= styles@.subrange(0, i as int));
            assert(styles@.subrange(0, i + 1).last() == styles@[i as int]);
        }
        if name_matches(styles[i].name.as_str(), prompt) {
            found.push(styles[i].clone());
        }
        i = i + 1;
    }
    proof {
        assert(styles@.subrange(0, styles@.len() as int) =~= styles@);
    }
    found
}

/// The style catalog as the tool holds it: the decoded records, the search
/// prompt as currently typed, and the styles the prompt selects.
pub struct BJCPStyleIndex {
    pub beer_styles: Vec<BeerStyle>,
    pub prompt: String,
    pub result: Vec<BeerStyle>,
}

impl Default for BJCPStyleIndex {
    fn default() -> (index: Self)
        ensures
            index.beer_styles@ == Seq::<BeerStyle>::empty(),
            index.prompt@ == Seq::<char>::empty(),
            index.result@ == Seq::<BeerStyle>::empty(),
    {
        BJCPStyleIndex { beer_styles: Vec::new(), prompt: String::new(), result: Vec::new() }
    }
}

impl BJCPStyleIndex {
    /// A catalog over the given records, with an empty prompt and no results
    /// yet.
    pub fn new(beer_styles: Vec<BeerStyle>) -> (index: Self)
        ensures
            index.beer_styles@ == beer_styles@,
            index.prompt@ == Seq::<char>::empty(),
            index.result@ == Seq::<BeerStyle>::empty(),
    {
        BJCPStyleIndex { beer_styles, prompt: String::new(), result: Vec::new() }
    }

    /// Recomputes the result list after the prompt has been edited.
    pub fn refresh_results(&mut self)
        ensures
            final(self).beer_styles@ == old(self).beer_styles@,
            final(self).prompt@ == old(self).prompt@,
            final(self).result@ == search_results(old(self).beer_styles@, old(self).prompt@),
    {
        let found = search_styles(self.prompt.as_str(), self.beer_styles.as_slice());
        self.result = found;
    }
}

} // verus!
