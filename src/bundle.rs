use vstd::prelude::*;

verus! {

/// Abstract value of one bundle: its identifier and its resources, as
/// (name, text) pairs in stored order.
pub ghost struct BundleModel {
    pub code: Seq<char>,
    pub resources: Seq<(Seq<char>, Seq<char>)>,
}

/// Text of the first resource called `name` at or after position `from`.
pub open spec fn text_from(
    resources: Seq<(Seq<char>, Seq<char>)>,
    name: Seq<char>,
    from: int,
) -> Option<Seq<char>>
    decreases resources.len() - from,
{
    if from < 0 || from >= resources.len() {
        None
    } else if resources[from].0 == name {
        Some(resources[from].1)
    } else {
        text_from(resources, name, from + 1)
    }
}

/// Text stored under `name` in a bundle: the first resource of that name.
pub open spec fn text_of(resources: Seq<(Seq<char>, Seq<char>)>, name: Seq<char>) -> Option<
    Seq<char>,
> {
    text_from(resources, name, 0)
}

/// What a lookup in `bundles` finds: the text of `name` in the bundle at
/// `index`, or nothing where there is no such bundle or no such resource.
pub open spec fn lookup_model(bundles: Seq<BundleModel>, index: int, name: Seq<char>) -> Option<
    Seq<char>,
> {
    if 0 <= index < bundles.len() {
        text_of(bundles[index].resources, name)
    } else {
        None
    }
}

/// Identifiers of `bundles`, in order.
pub open spec fn codes_of(bundles: Seq<BundleModel>) -> Seq<Seq<char>> {
    bundles.map_values(|b: BundleModel| b.code)
}

/// The texts of a sequence of strings.
pub open spec fn views_of(v: Seq<String>) -> Seq<Seq<char>> {
    v.map_values(|s: String| s@)
}

/// The text that an optional borrowed string holds.
pub open spec fn text_view(r: Option<&str>) -> Option<Seq<char>> {
    match r {
        Some(t) => Some(t@),
        None => None,
    }
}

/// One named piece of localized text.
pub struct Resource {
    pub name: String,
    pub text: String,
}

/// The resources of one language, under the language's identifier.
pub struct LanguageBundle {
    pub code: String,
    pub resources: Vec<Resource>,
}

impl View for LanguageBundle {
    type V = BundleModel;

    open spec fn view(&self) -> BundleModel {
        BundleModel {
            code: self.code@,
            resources: self.resources@.map_values(|r: Resource| (r.name@, r.text@)),
        }
    }
}

impl LanguageBundle {
    /// The text stored under `name` in this bundle.
    pub fn get(&self, name: &str) -> (r: Option<&str>)
        ensures
            text_view(r) == text_of(self@.resources, name@),
    {
        let key: String = name.to_owned();
        let mut j: usize = 0;
        while j < self.resources.len()
            invariant
                j <= self.resources@.len(),
                key@ == name@,
                text_of(self@.resources, name@) == text_from(self@.resources, name@, j as int),
            decreases self.resources@.len() - j,
        {
            if self.resources[j].name == key {
                return Some(self.resources[j].text.as_str());
            }
            j = j + 1;
        }
        None
    }
}

/// The read-only catalog of language bundles, loaded once; the position of
/// a bundle is the stable index of its language.
pub struct ContentBundleStore {
    bundles: Vec<LanguageBundle>,
}

impl View for ContentBundleStore {
    type V = Seq<BundleModel>;

    closed spec fn view(&self) -> Seq<BundleModel> {
        self.bundles@.map_values(|b: LanguageBundle| b@)
    }
}

impl ContentBundleStore {
    /// A catalog of `bundles`, in the given (discovery) order.
    pub fn new(bundles: Vec<LanguageBundle>) -> (r: Self)
        ensures
            r@ == bundles@.map_values(|b: LanguageBundle| b@),
    {
        ContentBundleStore { bundles }
    }

    /// Number of languages in the catalog.
    pub fn len(&self) -> (r: usize)
        ensures
            r == self@.len(),
    {
        self.bundles.len()
    }

    /// The identifier of the bundle at `index`.
    pub fn code(&self, index: usize) -> (r: &str)
        requires
            index < self@.len(),
        ensures
            r@ == self@[index as int].code,
    {
        self.bundles[index].code.as_str()
    }

    /// The identifiers of the bundles, in catalog order.
    pub fn enumerate_languages(&self) -> (r: Vec<String>)
        ensures
            views_of(r@) == codes_of(self@),
    {
        let mut r: Vec<String> = Vec::new();
        let mut i: usize = 0;
        while i < self.bundles.len()
            invariant
                i <= self.bundles@.len(),
                r@.len() == i,
                forall|k: int| 0 <= k < i ==> #[trigger] r@[k]@ == self@[k].code,
            decreases self.bundles@.len() - i,
        {
            let code = self.bundles[i].code.clone();
            proof {
                assert(self@[i as int] == self.bundles@[i as int]@);
            }
            r.push(code);
            i = i + 1;
        }
        assert(views_of(r@) =~= codes_of(self@));
        r
    }

    /// The text of `resource_name` in the bundle at `language_index`, or
    /// nothing where either is absent. No other bundle is consulted.
    pub fn lookup(&self, language_index: usize, resource_name: &str) -> (r: Option<&str>)
        ensures
            text_view(r) == lookup_model(self@, language_index as int, resource_name@),
    {
        if language_index < self.bundles.len() {
            self.bundles[language_index].get(resource_name)
        } else {
            None
        }
    }
}

} // verus!
