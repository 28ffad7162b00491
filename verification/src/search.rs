//! The searches whose record counts are compared, and where each is asked.

use vstd::prelude::*;
use vstd::string::StringExecFns;

verus! {

/// The base URL of the current deployment, where none is configured.
pub const DEFAULT_CURRENT_BASE: &'static str = "https://catalog.princeton.edu";

/// The base URL of the future deployment, where none is configured.
pub const DEFAULT_FUTURE_BASE: &'static str = "https://catalog-qa.princeton.edu";

/// What a [`Search`] holds, as plain sequences of characters.
pub struct SearchView {
    pub path: Seq<char>,
    pub name: Seq<char>,
}

/// A catalog search: the path and query string that select the records, and
/// a label for reports.
pub struct Search {
    path: String,
    name: String,
}

impl View for Search {
    type V = SearchView;

    closed spec fn view(&self) -> SearchView {
        SearchView { path: self.path@, name: self.name@ }
    }
}

impl SearchView {
    /// A search is complete when it has both a path and a name.
    pub open spec fn is_complete(self) -> bool {
        self.path.len() > 0 && self.name.len() > 0
    }
}

/// The URL of a search: the configured base where there is one, else the
/// default base, followed by the path of the search.
pub open spec fn url_of(configured: Option<&str>, default_base: Seq<char>, path: Seq<char>) -> Seq<
    char,
> {
    match configured {
        Some(base) => base@ + path,
        None => default_base + path,
    }
}

impl Search {
    pub fn new(path: &str, name: &str) -> (search: Search)
        ensures
            search@ == (SearchView { path: path@, name: name@ }),
    {
        Search { path: String::from_str(path), name: String::from_str(name) }
    }

    /// The label of the search.
    pub fn name(&self) -> (name: &str)
        ensures
            name@ == self@.name,
    {
        self.name.as_str()
    }

    /// The path and query string of the search.
    pub fn path(&self) -> (path: &str)
        ensures
            path@ == self@.path,
    {
        self.path.as_str()
    }

    /// The URL that asks the current deployment. `configured` is the base
    /// URL that the environment sets for it, if it sets one.
    pub fn old_url(&self, configured: Option<&str>) -> (url: String)
        ensures
            url@ == url_of(configured, DEFAULT_CURRENT_BASE@, self@.path),
    {
        let base = match configured {
            Some(base) => base,
            None => DEFAULT_CURRENT_BASE,
        };
        String::from_str(base).concat(self.path.as_str())
    }

    /// The URL that asks the future deployment. `configured` is the base
    /// URL that the environment sets for it, if it sets one.
    pub fn new_url(&self, configured: Option<&str>) -> (url: String)
        ensures
            url@ == url_of(configured, DEFAULT_FUTURE_BASE@, self@.path),
    {
        let base = match configured {
            Some(base) => base,
            None => DEFAULT_FUTURE_BASE,
        };
        String::from_str(base).concat(self.path.as_str())
    }
}

/// The searches that [`searches`] returns, in order.
pub open spec fn registry() -> Seq<SearchView> {
    seq![
        SearchView { path: "/catalog.json?f[advanced_location_s][]=scsbcul"@, name: "Columbia"@ },
        SearchView { path: "/catalog.json?f[advanced_location_s][]=scsbhl"@, name: "Harvard"@ },
        SearchView {
            path: "/catalog.json?f[advanced_location_s][]=scsbnypl"@,
            name: "New York Public"@,
        },
        SearchView {
            path: "/catalog.json?f[access_facet][]=In+the+Library"@,
            name: "In the Library"@,
        },
        SearchView { path: "/catalog.json?f[access_facet][]=Online"@, name: "Online"@ },
        SearchView { path: "/catalog.json?f[format][]=Coin"@, name: "Coins"@ },
        SearchView { path: "/catalog.json?f[format][]=Senior+thesis"@, name: "Theses"@ },
    ]
}

/// The fixed list of searches.
pub fn searches() -> (list: [Search; 7])
    ensures
        list@.len() == 7,
        forall|i: int| 0 <= i < 7 ==> (#[trigger] list@[i])@ == registry()[i],
{
    [
        Search::new("/catalog.json?f[advanced_location_s][]=scsbcul", "Columbia"),
        Search::new("/catalog.json?f[advanced_location_s][]=scsbhl", "Harvard"),
        Search::new("/catalog.json?f[advanced_location_s][]=scsbnypl", "New York Public"),
        Search::new("/catalog.json?f[access_facet][]=In+the+Library", "In the Library"),
        Search::new("/catalog.json?f[access_facet][]=Online", "Online"),
        Search::new("/catalog.json?f[format][]=Coin", "Coins"),
        Search::new("/catalog.json?f[format][]=Senior+thesis", "Theses"),
    ]
}

/// Every search of the registry has a path and a name.
pub proof fn lemma_registry_is_complete()
    ensures
        registry().len() == 7,
        forall|i: int| 0 <= i < 7 ==> (#[trigger] registry()[i]).is_complete(),
{
    reveal_strlit("/catalog.json?f[advanced_location_s][]=scsbcul");
    reveal_strlit("/catalog.json?f[advanced_location_s][]=scsbhl");
    reveal_strlit("/catalog.json?f[advanced_location_s][]=scsbnypl");
    reveal_strlit("/catalog.json?f[access_facet][]=In+the+Library");
    reveal_strlit("/catalog.json?f[access_facet][]=Online");
    reveal_strlit("/catalog.json?f[format][]=Coin");
    reveal_strlit("/catalog.json?f[format][]=Senior+thesis");
    reveal_strlit("Columbia");
    reveal_strlit("Harvard");
    reveal_strlit("New York Public");
    reveal_strlit("In the Library");
    reveal_strlit("Online");
    reveal_strlit("Coins");
    reveal_strlit("Theses");
}

} // verus!
