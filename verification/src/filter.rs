//! The three view filters, All, Active and Completed, and which of them is
//! selected. The selection mirrors what the client last asked for; exactly one
//! filter is selected at any time.

use vstd::prelude::*;
use vstd::string::*;

verus! {

/// One of the three fixed filters.
#[derive(Clone, Copy, Debug, PartialEq, Eq, Structural)]
pub enum FilterKind {
    All,
    Active,
    Completed,
}

impl FilterKind {
    /// The name under which the client knows the filter.
    pub open spec fn name_of(self) -> Seq<char> {
        match self {
            FilterKind::All => "All"@,
            FilterKind::Active => "Active"@,
            FilterKind::Completed => "Completed"@,
        }
    }

    /// The URL fragment that selects the filter in the browser.
    pub open spec fn url_of(self) -> Seq<char> {
        match self {
            FilterKind::All => "#/"@,
            FilterKind::Active => "#/active"@,
            FilterKind::Completed => "#/completed"@,
        }
    }

    /// The filter with exactly that name, letter case included.
    pub open spec fn named(name: Seq<char>) -> Option<FilterKind> {
        if name == "All"@ {
            Some(FilterKind::All)
        } else if name == "Active"@ {
            Some(FilterKind::Active)
        } else if name == "Completed"@ {
            Some(FilterKind::Completed)
        } else {
            None
        }
    }

    /// The filter that a request for `name` selects: the one of that name, and
    /// All for a name that no filter has.
    pub open spec fn named_or_all(name: Seq<char>) -> FilterKind {
        match FilterKind::named(name) {
            Some(kind) => kind,
            None => FilterKind::All,
        }
    }

    /// The name of the filter.
    pub fn name(self) -> (r: &'static str)
        ensures
            r@ == self.name_of(),
    {
        match self {
            FilterKind::All => "All",
            FilterKind::Active => "Active",
            FilterKind::Completed => "Completed",
        }
    }

    /// The URL fragment of the filter.
    pub fn url(self) -> (r: &'static str)
        ensures
            r@ == self.url_of(),
    {
        match self {
            FilterKind::All => "#/",
            FilterKind::Active => "#/active",
            FilterKind::Completed => "#/completed",
        }
    }

    /// The filter called `name`, if there is one.
    pub fn from_name(name: &str) -> (r: Option<FilterKind>)
        ensures
            r == FilterKind::named(name@),
    {
        if str::eq(name, "All") {
            Some(FilterKind::All)
        } else if str::eq(name, "Active") {
            Some(FilterKind::Active)
        } else if str::eq(name, "Completed") {
            Some(FilterKind::Completed)
        } else {
            None
        }
    }
}

/// The three names differ from one another, and so do the three URLs.
pub proof fn lemma_kinds_distinct()
    ensures
        forall|a: FilterKind, b: FilterKind| a != b ==> a.name_of() != b.name_of(),
        forall|a: FilterKind, b: FilterKind| a != b ==> a.url_of() != b.url_of(),
        forall|k: FilterKind| FilterKind::named(#[trigger] k.name_of()) == Some(k),
{
    reveal_strlit("All");
    reveal_strlit("Active");
    reveal_strlit("Completed");
    reveal_strlit("#/");
    reveal_strlit("#/active");
    reveal_strlit("#/completed");
    assert("All"@.len() == 3 && "Active"@.len() == 6 && "Completed"@.len() == 9);
    assert("#/"@.len() == 2 && "#/active"@.len() == 8 && "#/completed"@.len() == 11);
}

/// The model of a filter: its texts as sequences of characters.
pub struct FilterModel {
    pub url: Seq<char>,
    pub name: Seq<char>,
    pub selected: bool,
}

/// A view filter as the page shows it: a link, a label, and whether it is the
/// selected one.
#[derive(Clone, Copy, Debug, PartialEq, Eq)]
pub struct Filter {
    url: &'static str,
    name: &'static str,
    selected: bool,
}

impl View for Filter {
    type V = FilterModel;

    closed spec fn view(&self) -> FilterModel {
        FilterModel { url: self.url@, name: self.name@, selected: self.selected }
    }
}

/// The property of a filter by which a selection is made.
#[derive(Clone, Copy, Debug, PartialEq, Eq, Structural)]
pub enum FilterProperty {
    Name,
    Url,
}

impl FilterProperty {
    /// The value that `filter` has for this property.
    pub open spec fn of(self, filter: FilterModel) -> Seq<char> {
        match self {
            FilterProperty::Name => filter.name,
            FilterProperty::Url => filter.url,
        }
    }
}

/// The models of a sequence of filters, in order.
pub open spec fn filter_models(filters: Seq<Filter>) -> Seq<FilterModel> {
    filters.map_values(|f: Filter| f@)
}

impl Filter {
    /// A filter with the given link, label and mark.
    pub fn new(url: &'static str, name: &'static str, selected: bool) -> (r: Filter)
        ensures
            r@ == (FilterModel { url: url@, name: name@, selected }),
    {
        Filter { url, name, selected }
    }

    /// The URL fragment that the filter links to.
    pub fn url(&self) -> (r: &'static str)
        ensures
            r@ == self@.url,
    {
        self.url
    }

    /// The label of the filter.
    pub fn name(&self) -> (r: &'static str)
        ensures
            r@ == self@.name,
    {
        self.name
    }

    /// Whether the filter is marked as the selected one.
    pub fn selected(&self) -> (r: bool)
        ensures
            r == self@.selected,
    {
        self.selected
    }

    /// Selects the filters whose `property` equals `value` and deselects all
    /// the others, in one pass. Nothing but the selection changes.
    pub fn update_selected_by_property(
        value: &str,
        filters: &mut Vec<Filter>,
        property: FilterProperty,
    )
        ensures
            final(filters)@.len() == old(filters)@.len(),
            forall|i: int|
                0 <= i < old(filters)@.len() ==> (#[trigger] final(filters)@[i])@ == (FilterModel {
                    selected: property.of(old(filters)@[i]@) == value@,
                    ..old(filters)@[i]@
                }),
    {
        let n = filters.len();
        let mut i: usize = 0;
        while i < n
            invariant
                n == old(filters)@.len(),
                filters@.len() == n,
                i <= n,
                forall|j: int|
                    0 <= j < i ==> (#[trigger] filters@[j])@ == (FilterModel {
                        selected: property.of(old(filters)@[j]@) == value@,
                        ..old(filters)@[j]@
                    }),
                forall|j: int| i <= j < n ==> filters@[j] == old(filters)@[j],
            decreases n - i,
        {
            let hit = match property {
                FilterProperty::Name => str::eq(filters[i].name, value),
                FilterProperty::Url => str::eq(filters[i].url, value),
            };
            filters[i].selected = hit;
            i = i + 1;
        }
    }
}

/// The entry of `kind` in the filter bar when `selected` is the selected
/// filter.
pub open spec fn bar_entry(kind: FilterKind, selected: FilterKind) -> FilterModel {
    FilterModel { url: kind.url_of(), name: kind.name_of(), selected: kind == selected }
}

/// The filter bar when `selected` is the selected filter: All, Active,
/// Completed, in that order.
pub open spec fn filter_bar_of(selected: FilterKind) -> Seq<FilterModel> {
    seq![
        bar_entry(FilterKind::All, selected),
        bar_entry(FilterKind::Active, selected),
        bar_entry(FilterKind::Completed, selected),
    ]
}

/// How many filters of `filters` are selected.
pub open spec fn selected_count(filters: Seq<FilterModel>) -> nat {
    filters.filter(|f: FilterModel| f.selected).len()
}

/// The filter state: the three filters and the selection. Its view is the
/// selected filter; the filters themselves are `filter_bar_of` that view.
#[derive(Debug)]
pub struct FilterState {
    filters: Vec<Filter>,
}

impl View for FilterState {
    type V = FilterKind;

    closed spec fn view(&self) -> FilterKind {
        if self.filters@.len() == 3 && self.filters@[1].selected {
            FilterKind::Active
        } else if self.filters@.len() == 3 && self.filters@[2].selected {
            FilterKind::Completed
        } else {
            FilterKind::All
        }
    }
}

impl FilterState {
    /// The filters are the filter bar of the selected filter: three entries
    /// with their fixed links and names, exactly one of them selected.
    #[verifier::type_invariant]
    closed spec fn well_formed(self) -> bool {
        filter_models(self.filters@) == filter_bar_of(self@)
    }

    /// The state at startup: All is selected.
    pub fn new() -> (r: FilterState)
        ensures
            r@ == FilterKind::All,
    {
        let mut filters: Vec<Filter> = Vec::new();
        filters.push(Filter { url: "#/", name: "All", selected: true });
        filters.push(Filter { url: "#/active", name: "Active", selected: false });
        filters.push(Filter { url: "#/completed", name: "Completed", selected: false });
        assert(filter_models(filters@) =~= filter_bar_of(FilterKind::All));
        FilterState { filters }
    }

    /// Selects the filter called `name`, or All where no filter has that name.
    pub fn select(&mut self, name: &str)
        ensures
            final(self)@ == FilterKind::named_or_all(name@),
    {
        proof {
            use_type_invariant(&*self);
            lemma_kinds_distinct();
        }
        let kind = match FilterKind::from_name(name) {
            Some(kind) => kind,
            None => FilterKind::All,
        };
        let mut filters = self.filters.clone();
        Filter::update_selected_by_property(kind.name(), &mut filters, FilterProperty::Name);
        assert(filter_models(filters@) =~= filter_bar_of(kind)) by {
            assert(filter_models(self.filters@).len() == 3);
        }
        self.filters = filters;
    }

    /// The name of the selected filter.
    pub fn selected_name(&self) -> (r: String)
        ensures
            r@ == self@.name_of(),
    {
        proof {
            use_type_invariant(self);
        }
        let n = self.filters.len();
        let mut i: usize = 0;
        while i < n
            invariant
                n == self.filters@.len(),
                i <= n,
                filter_models(self.filters@) == filter_bar_of(self@),
                forall|j: int| 0 <= j < i ==> !(#[trigger] self.filters@[j])@.selected,
            decreases n - i,
        {
            if self.filters[i].selected {
                return self.filters[i].name.to_string();
            }
            i = i + 1;
        }
        "All".to_string()
    }

    /// The selected filter.
    pub fn selected(&self) -> (r: FilterKind)
        ensures
            r == self@,
    {
        proof {
            use_type_invariant(self);
        }
        assert(filter_models(self.filters@).len() == 3);
        if self.filters[1].selected {
            FilterKind::Active
        } else if self.filters[2].selected {
            FilterKind::Completed
        } else {
            FilterKind::All
        }
    }

    /// The three filters in their fixed order, All, Active, Completed, exactly
    /// one of them selected.
    pub fn list(&self) -> (r: Vec<Filter>)
        ensures
            filter_models(r@) == filter_bar_of(self@),
            selected_count(filter_models(r@)) == 1,
    {
        proof {
            use_type_invariant(self);
            law_exactly_one_selected(self@);
        }
        self.filters.clone()
    }
}

/// Whoever is selected, exactly one filter of the bar is marked as selected,
/// and it is the one that was chosen.
pub proof fn law_exactly_one_selected(selected: FilterKind)
    ensures
        selected_count(filter_bar_of(selected)) == 1,
        forall|i: int|
            0 <= i < 3 ==> (#[trigger] filter_bar_of(selected)[i]).selected == (filter_bar_of(
                selected,
            )[i].name == selected.name_of()),
{
    lemma_kinds_distinct();
    reveal_with_fuel(Seq::filter, 4);
}

} // verus!
