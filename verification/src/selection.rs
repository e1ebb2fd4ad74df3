//! The two pieces of state that narrow the catalog: the search text and the
//! selected category. At most one category is selected at a time; a click on
//! the selected one deselects it.

use crate::ckad_data::{all_populated, catalog_view, Category};
use crate::filter::{
    compute_filtered_view, drawn_from, filtered_view, respects_filters, selection_view,
};
use vstd::prelude::*;

verus! {

/// The selection after a click on the category `clicked`: none if that
/// category was the selected one, else `clicked`, whatever was selected
/// before.
pub open spec fn toggled(selected: Option<Seq<char>>, clicked: Seq<char>) -> Option<Seq<char>> {
    if selected == Some(clicked) {
        None
    } else {
        Some(clicked)
    }
}

/// What a `FilterState` holds, as sequences of characters.
pub ghost struct FilterStateView {
    pub query: Seq<char>,
    pub selected: Option<Seq<char>>,
}

/// The search text and the selected category.
#[derive(Debug, PartialEq, Eq)]
pub struct FilterState {
    search_query: String,
    selected_category: Option<String>,
}

impl View for FilterState {
    type V = FilterStateView;

    closed spec fn view(&self) -> FilterStateView {
        FilterStateView {
            query: self.search_query@,
            selected: selection_view(self.selected_category),
        }
    }
}

impl Clone for FilterState {
    fn clone(&self) -> (copy: Self)
        ensures
            copy@ == self@,
    {
        let selected_category = match &self.selected_category {
            Some(s) => Some(s.clone()),
            None => None,
        };
        FilterState { search_query: self.search_query.clone(), selected_category }
    }
}

impl FilterState {
    /// The state at start: no search text, nothing selected.
    pub fn new() -> (state: Self)
        ensures
            state@ == (FilterStateView { query: Seq::<char>::empty(), selected: None }),
    {
        FilterState { search_query: String::new(), selected_category: None }
    }

    /// The search text.
    pub fn search_query(&self) -> (query: &str)
        ensures
            query@ == self@.query,
    {
        self.search_query.as_str()
    }

    /// The selected category's name, if one is selected.
    pub fn selected_category(&self) -> (selected: &Option<String>)
        ensures
            selection_view(*selected) == self@.selected,
    {
        &self.selected_category
    }

    /// Replaces the search text. The selection stays.
    pub fn set_search_query(&mut self, value: String)
        ensures
            final(self)@ == (FilterStateView { query: value@, selected: old(self)@.selected }),
    {
        self.search_query = value;
    }

    /// Empties the search text. The selection stays.
    pub fn clear_search(&mut self)
        ensures
            final(self)@ == (FilterStateView {
                query: Seq::<char>::empty(),
                selected: old(self)@.selected,
            }),
    {
        self.search_query = String::new();
    }

    /// Tells whether the category of the given name is the selected one.
    pub fn is_selected(&self, name: &str) -> (selected: bool)
        ensures
            selected == (self@.selected == Some(name@)),
    {
        match &self.selected_category {
            Some(s) => *s == name.to_string(),
            None => false,
        }
    }

    /// A click on a category's button: deselects the category if it was the
    /// selected one, else selects it in place of whatever was selected. The
    /// search text stays.
    pub fn on_category_clicked(&mut self, name: &str)
        ensures
            final(self)@ == (FilterStateView {
                query: old(self)@.query,
                selected: toggled(old(self)@.selected, name@),
            }),
    {
        if self.is_selected(name) {
            self.selected_category = None;
        } else {
            self.selected_category = Some(name.to_string());
        }
    }

    /// Clears both filters at once: afterwards the search text is empty and
    /// nothing is selected, whatever held before.
    pub fn reset(&mut self)
        ensures
            final(self)@ == (FilterStateView { query: Seq::<char>::empty(), selected: None }),
    {
        *self = FilterState::new();
    }

    /// Tells whether anything is filtered: a category is selected or the
    /// search text is not empty.
    pub fn has_active_filters(&self) -> (active: bool)
        ensures
            active == (self@.selected is Some || self@.query.len() > 0),
    {
        self.selected_category.is_some() || !self.search_query.as_str().is_empty()
    }

    /// The filtered view of a catalog under this state.
    pub fn filtered_view(&self, catalog: &Vec<Category>) -> (view: Vec<Category>)
        ensures
            catalog_view(view@) == filtered_view(
                catalog_view(catalog@),
                self@.query,
                self@.selected,
            ),
            respects_filters(catalog_view(view@), self@.query, self@.selected),
            drawn_from(catalog_view(view@), catalog_view(catalog@), self@.query),
            view.len() <= catalog.len(),
            self@.query.len() > 0 || all_populated(catalog_view(catalog@)) ==> all_populated(
                catalog_view(view@),
            ),
    {
        compute_filtered_view(catalog, self.search_query.as_str(), &self.selected_category)
    }
}

/// Two clicks in a row on one category restore the selection that held
/// before the first, where nothing or that category was selected.
pub proof fn lemma_double_click_restores(selected: Option<Seq<char>>, clicked: Seq<char>)
    requires
        selected is None || selected == Some(clicked),
    ensures
        toggled(toggled(selected, clicked), clicked) == selected,
{
}

/// Two clicks in a row on a category other than the selected one leave
/// nothing selected: the first replaces the selection, the second removes
/// it.
pub proof fn lemma_double_click_elsewhere_deselects(
    selected: Option<Seq<char>>,
    clicked: Seq<char>,
)
    requires
        selected is Some,
        selected != Some(clicked),
    ensures
        toggled(selected, clicked) == Some(clicked),
        toggled(toggled(selected, clicked), clicked) == None::<Seq<char>>,
{
}

} // verus!
