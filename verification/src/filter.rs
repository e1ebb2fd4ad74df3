//! The derived view: which categories and entries of a catalog stay visible
//! under a search text and an optional selected category.
//!
//! The view is a function of the catalog, the search text and the selection,
//! and of nothing else. Text is compared in lower case; the search text is
//! never trimmed, and an empty one filters nothing.

use crate::ckad_data::{
    all_populated, catalog_view, concepts_view, names_unique, Category, CategoryView, Concept,
    ConceptView,
};
use crate::text::{contains, is_substring, lowercase, to_lowercase};
use vstd::prelude::*;

verus! {

/// The search text, already in lower case, occurs in one of an entry's
/// texts, themselves already in lower case. An entry without a description
/// can only match by its title or its command.
pub open spec fn folded_match(
    title: Seq<char>,
    command: Seq<char>,
    description: Option<Seq<char>>,
    query: Seq<char>,
) -> bool {
    is_substring(query, title) || is_substring(query, command) || match description {
        Some(d) => is_substring(query, d),
        None => false,
    }
}

/// The lower-case form of an optional text.
pub open spec fn lowercase_opt(text: Option<Seq<char>>) -> Option<Seq<char>> {
    match text {
        Some(t) => Some(lowercase(t)),
        None => None,
    }
}

/// An entry matches a search text that is already in lower case.
pub open spec fn hits_folded(concept: ConceptView, folded_query: Seq<char>) -> bool {
    folded_match(
        lowercase(concept.title),
        lowercase(concept.command),
        lowercase_opt(concept.description),
        folded_query,
    )
}

/// An entry matches a search text: the text occurs in its title, its command
/// or its description, all compared in lower case.
pub open spec fn matches_query(concept: ConceptView, query: Seq<char>) -> bool {
    hits_folded(concept, lowercase(query))
}

/// The entries that match a search text already in lower case, in the
/// order in which they stand.
pub open spec fn hits(concepts: Seq<ConceptView>, folded_query: Seq<char>) -> Seq<ConceptView> {
    concepts.filter(|c: ConceptView| hits_folded(c, folded_query))
}

/// The entries of a category that stay visible under a search text: all of
/// them if the text is empty, else those that match it.
pub open spec fn matching_concepts(concepts: Seq<ConceptView>, query: Seq<char>) -> Seq<
    ConceptView,
> {
    if query.len() == 0 {
        concepts
    } else {
        hits(concepts, lowercase(query))
    }
}

/// A selection lets a category through: none is selected, or this one is.
pub open spec fn selection_admits(selected: Option<Seq<char>>, name: Seq<char>) -> bool {
    match selected {
        Some(s) => s == name,
        None => true,
    }
}

/// A category stays in the view: the selection lets it through and, where a
/// search text is given, at least one of its entries matches.
pub open spec fn survives(
    category: CategoryView,
    query: Seq<char>,
    selected: Option<Seq<char>>,
) -> bool {
    selection_admits(selected, category.name) && (query.len() == 0 || matching_concepts(
        category.concepts,
        query,
    ).len() > 0)
}

/// A category reduced to its visible entries.
pub open spec fn narrowed(category: CategoryView, query: Seq<char>) -> CategoryView {
    CategoryView { name: category.name, concepts: matching_concepts(category.concepts, query) }
}

/// The categories that stay in the view, entries still unfiltered.
pub open spec fn surviving(
    catalog: Seq<CategoryView>,
    query: Seq<char>,
    selected: Option<Seq<char>>,
) -> Seq<CategoryView> {
    catalog.filter(|c: CategoryView| survives(c, query, selected))
}

/// The filtered view of a catalog: the surviving categories, each reduced to
/// its visible entries, categories and entries in catalog order.
pub open spec fn filtered_view(
    catalog: Seq<CategoryView>,
    query: Seq<char>,
    selected: Option<Seq<char>>,
) -> Seq<CategoryView> {
    surviving(catalog, query, selected).map_values(|c: CategoryView| narrowed(c, query))
}

/// The selected name as a sequence of characters.
pub open spec fn selection_view(selected: Option<String>) -> Option<Seq<char>> {
    match selected {
        Some(s) => Some(s@),
        None => None,
    }
}

/// Appending an entry to a run appends it to the matching entries if it
/// matches, and leaves them as they are if it does not.
pub proof fn lemma_hits_push(concepts: Seq<ConceptView>, concept: ConceptView, folded: Seq<char>)
    ensures
        hits(concepts.push(concept), folded) == if hits_folded(concept, folded) {
            hits(concepts, folded).push(concept)
        } else {
            hits(concepts, folded)
        },
{
    reveal(Seq::filter);
    assert(concepts.push(concept).drop_last() == concepts);
}

/// Appending a category to a catalog appends its reduced form to the view
/// if it survives, and leaves the view as it is if it does not.
pub proof fn lemma_filtered_view_push(
    catalog: Seq<CategoryView>,
    category: CategoryView,
    query: Seq<char>,
    selected: Option<Seq<char>>,
)
    ensures
        filtered_view(catalog.push(category), query, selected) == if survives(
            category,
            query,
            selected,
        ) {
            filtered_view(catalog, query, selected).push(narrowed(category, query))
        } else {
            filtered_view(catalog, query, selected)
        },
{
    reveal(Seq::filter);
    assert(catalog.push(category).drop_last() == catalog);
    if survives(category, query, selected) {
        assert(surviving(catalog.push(category), query, selected) == surviving(
            catalog,
            query,
            selected,
        ).push(category));
        assert(filtered_view(catalog.push(category), query, selected) =~= filtered_view(
            catalog,
            query,
            selected,
        ).push(narrowed(category, query)));
    }
}

/// A view shows nothing that the filters exclude: the selection lets every
/// category of it through and, where a search text is given, every category
/// of it holds at least one entry and each of its entries matches the text.
pub open spec fn respects_filters(
    view: Seq<CategoryView>,
    query: Seq<char>,
    selected: Option<Seq<char>>,
) -> bool {
    forall|i: int|
        0 <= i < view.len() ==> {
            &&& selection_admits(selected, (#[trigger] view[i]).name)
            &&& query.len() > 0 ==> view[i].concepts.len() > 0
            &&& query.len() > 0 ==> forall|j: int|
                0 <= j < view[i].concepts.len() ==> matches_query(
                    #[trigger] view[i].concepts[j],
                    query,
                )
        }
}

/// A category is one of the catalog's, reduced to its visible entries.
pub open spec fn taken_from(
    category: CategoryView,
    catalog: Seq<CategoryView>,
    query: Seq<char>,
) -> bool {
    exists|k: int| 0 <= k < catalog.len() && category == narrowed(#[trigger] catalog[k], query)
}

/// Every category of a view is one of the catalog's, reduced to its visible
/// entries.
pub open spec fn drawn_from(
    view: Seq<CategoryView>,
    catalog: Seq<CategoryView>,
    query: Seq<char>,
) -> bool {
    forall|i: int| 0 <= i < view.len() ==> taken_from(#[trigger] view[i], catalog, query)
}

/// The filtered view shows nothing that the filters exclude, and nothing
/// that the catalog does not hold. It has no empty category, unless the
/// search text is empty and the catalog itself has one.
pub proof fn lemma_filtered_view_sound(
    catalog: Seq<CategoryView>,
    query: Seq<char>,
    selected: Option<Seq<char>>,
)
    ensures
        respects_filters(filtered_view(catalog, query, selected), query, selected),
        drawn_from(filtered_view(catalog, query, selected), catalog, query),
        filtered_view(catalog, query, selected).len() <= catalog.len(),
        query.len() > 0 || all_populated(catalog) ==> all_populated(
            filtered_view(catalog, query, selected),
        ),
{
    let view = filtered_view(catalog, query, selected);
    let hit = |c: ConceptView| hits_folded(c, lowercase(query));
    assert forall|i: int| 0 <= i < view.len() implies {
        &&& selection_admits(selected, (#[trigger] view[i]).name)
        &&& query.len() > 0 ==> view[i].concepts.len() > 0
        &&& query.len() > 0 ==> forall|j: int|
            0 <= j < view[i].concepts.len() ==> matches_query(
                #[trigger] view[i].concepts[j],
                query,
            )
        &&& all_populated(catalog) ==> view[i].concepts.len() > 0
        &&& taken_from(view[i], catalog, query)
    } by {
        let k = lemma_source_of(catalog, query, selected, i);
        assert(view[i] == narrowed(catalog[k], query));
        assert forall|j: int| query.len() > 0 && 0 <= j < view[i].concepts.len() implies matches_query(
            #[trigger] view[i].concepts[j],
            query,
        ) by {
            catalog[k].concepts.lemma_filter_pred(hit, j);
        }
    }
}

/// The category of the catalog that a surviving category was taken from.
proof fn lemma_source_of(
    catalog: Seq<CategoryView>,
    query: Seq<char>,
    selected: Option<Seq<char>>,
    i: int,
) -> (k: int)
    requires
        0 <= i < surviving(catalog, query, selected).len(),
    ensures
        0 <= k < catalog.len(),
        catalog[k] == surviving(catalog, query, selected)[i],
        survives(catalog[k], query, selected),
{
    let kept = surviving(catalog, query, selected);
    let stays = |c: CategoryView| survives(c, query, selected);
    catalog.lemma_filter_pred(stays, i);
    assert(kept.contains(kept[i]));
    catalog.lemma_filter_contains_rev(stays, kept[i]);
    choose|k: int| 0 <= k < catalog.len() && catalog[k] == kept[i]
}

/// The filtered view lacks nothing that the filters let through: a category
/// of the catalog that survives stands in the view, reduced to its visible
/// entries, and these hold every entry of it that matches.
pub proof fn lemma_filtered_view_complete(
    catalog: Seq<CategoryView>,
    query: Seq<char>,
    selected: Option<Seq<char>>,
    k: int,
)
    requires
        0 <= k < catalog.len(),
        survives(catalog[k], query, selected),
    ensures
        filtered_view(catalog, query, selected).contains(narrowed(catalog[k], query)),
        forall|j: int|
            0 <= j < catalog[k].concepts.len() && (query.len() == 0 || matches_query(
                catalog[k].concepts[j],
                query,
            )) ==> narrowed(catalog[k], query).concepts.contains(#[trigger] catalog[k].concepts[j]),
{
    let kept = surviving(catalog, query, selected);
    let view = filtered_view(catalog, query, selected);
    let stays = |c: CategoryView| survives(c, query, selected);
    let hit = |c: ConceptView| hits_folded(c, lowercase(query));
    catalog.lemma_filter_contains(stays, k);
    let i = choose|i: int| 0 <= i < kept.len() && kept[i] == catalog[k];
    assert(view[i] == narrowed(catalog[k], query));
    let concepts = catalog[k].concepts;
    assert forall|j: int|
        0 <= j < concepts.len() && (query.len() == 0 || matches_query(
            concepts[j],
            query,
        )) implies narrowed(catalog[k], query).concepts.contains(#[trigger] concepts[j]) by {
        if query.len() == 0 {
            assert(narrowed(catalog[k], query).concepts[j] == concepts[j]);
        } else {
            concepts.lemma_filter_contains(hit, j);
        }
    }
}

/// The view is a function of its inputs: two views computed from the same
/// catalog, search text and selection show the same categories and entries.
pub proof fn lemma_same_inputs_same_view(
    catalog: Seq<Category>,
    query: Seq<char>,
    selected: Option<String>,
    first: Seq<Category>,
    second: Seq<Category>,
)
    requires
        catalog_view(first) == filtered_view(
            catalog_view(catalog),
            query,
            selection_view(selected),
        ),
        catalog_view(second) == filtered_view(
            catalog_view(catalog),
            query,
            selection_view(selected),
        ),
    ensures
        first.len() == second.len(),
        forall|i: int| 0 <= i < first.len() ==> (#[trigger] first[i])@ == second[i]@,
{
    assert(catalog_view(first).len() == first.len());
    assert(catalog_view(second).len() == second.len());
    assert forall|i: int| 0 <= i < first.len() implies (#[trigger] first[i])@ == second[i]@ by {
        assert(catalog_view(first)[i] == first[i]@);
        assert(catalog_view(second)[i] == second[i]@);
    }
}

/// With an empty search text and no selection the view is the catalog.
pub proof fn lemma_no_filter_shows_all(catalog: Seq<CategoryView>)
    ensures
        filtered_view(catalog, Seq::<char>::empty(), None) == catalog,
    decreases catalog.len(),
{
    let none = Seq::<char>::empty();
    if catalog.len() == 0 {
        reveal(Seq::filter);
        assert(filtered_view(catalog, none, None) =~= catalog);
    } else {
        let rest = catalog.drop_last();
        lemma_no_filter_shows_all(rest);
        lemma_filtered_view_push(rest, catalog.last(), none, None);
        assert(rest.push(catalog.last()) == catalog);
        assert(narrowed(catalog.last(), none) == catalog.last());
    }
}

/// Where no two categories share a name, a selection leaves at most one
/// category in the view.
pub proof fn lemma_selection_shows_at_most_one(
    catalog: Seq<CategoryView>,
    query: Seq<char>,
    name: Seq<char>,
)
    requires
        names_unique(catalog),
    ensures
        filtered_view(catalog, query, Some(name)).len() <= 1,
    decreases catalog.len(),
{
    if catalog.len() == 0 {
        reveal(Seq::filter);
    } else {
        let rest = catalog.drop_last();
        let last = catalog.last();
        assert forall|i: int, j: int| 0 <= i < j < rest.len() implies (#[trigger] rest[i]).name != (
        #[trigger] rest[j]).name by {
            assert(rest[i] == catalog[i] && rest[j] == catalog[j]);
        }
        lemma_selection_shows_at_most_one(rest, query, name);
        lemma_filtered_view_push(rest, last, query, Some(name));
        assert(rest.push(last) == catalog);
        if survives(last, query, Some(name)) && filtered_view(rest, query, Some(name)).len() > 0 {
            lemma_filtered_view_sound(rest, query, Some(name));
            let shown = filtered_view(rest, query, Some(name));
            assert(taken_from(shown[0], rest, query));
            let k = choose|k: int| 0 <= k < rest.len() && shown[0] == narrowed(rest[k], query);
            assert(selection_admits(Some(name), shown[0].name));
            assert(catalog[k].name == name);
            assert(catalog[catalog.len() - 1].name == name);
            assert(false);
        }
    }
}

/// Tells whether a search text occurs in one of an entry's texts. All four
/// texts are taken as they are: the caller has brought them to lower case.
pub fn matches_folded(title: &str, command: &str, description: Option<&str>, query: &str) -> (hit:
    bool)
    ensures
        hit == folded_match(
            title@,
            command@,
            match description {
                Some(d) => Some(d@),
                None => None,
            },
            query@,
        ),
{
    if contains(title, query) || contains(command, query) {
        return true;
    }
    match description {
        Some(d) => contains(d, query),
        None => false,
    }
}

/// Tells whether an entry matches a search text that is already in lower
/// case: the entry's texts are brought to lower case and searched.
pub fn concept_matches(concept: &Concept, folded_query: &str) -> (hit: bool)
    ensures
        hit == hits_folded(concept@, folded_query@),
{
    let title = to_lowercase(concept.title.as_str());
    let command = to_lowercase(concept.command.as_str());
    match &concept.description {
        Some(d) => {
            let description = to_lowercase(d.as_str());
            matches_folded(
                title.as_str(),
                command.as_str(),
                Some(description.as_str()),
                folded_query,
            )
        },
        None => matches_folded(title.as_str(), command.as_str(), None, folded_query),
    }
}

/// Copies out the entries that match a search text already in lower case,
/// in the order in which they stand.
pub fn filter_concepts(concepts: &Vec<Concept>, folded_query: &str) -> (kept: Vec<Concept>)
    ensures
        concepts_view(kept@) == hits(concepts_view(concepts@), folded_query@),
{
    let mut kept: Vec<Concept> = Vec::new();
    let mut i: usize = 0;
    proof {
        reveal(Seq::filter);
        assert(concepts_view(concepts@.take(0)) =~= Seq::<ConceptView>::empty());
        assert(concepts_view(kept@) =~= Seq::<ConceptView>::empty());
    }
    while i < concepts.len()
        invariant
            i <= concepts.len(),
            concepts_view(kept@) == hits(concepts_view(concepts@.take(i as int)), folded_query@),
        decreases concepts.len() - i,
    {
        let ghost before = kept@;
        let concept = &concepts[i];
        proof {
            lemma_hits_push(concepts_view(concepts@.take(i as int)), concept@, folded_query@);
            assert(concepts@.take(i + 1) == concepts@.take(i as int).push(*concept));
            assert(concepts_view(concepts@.take(i + 1)) == concepts_view(
                concepts@.take(i as int),
            ).push(concept@));
        }
        if concept_matches(concept, folded_query) {
            kept.push(concept.clone());
            proof {
                assert(concepts_view(kept@) == concepts_view(before).push(concept@));
            }
        }
        i += 1;
    }
    proof {
        assert(concepts@.take(i as int) == concepts@);
    }
    kept
}

/// Tells whether a selection lets the category of a given name through.
pub fn is_admitted(selected: &Option<String>, name: &String) -> (admitted: bool)
    ensures
        admitted == selection_admits(selection_view(*selected), name@),
{
    match selected {
        Some(s) => *s == *name,
        None => true,
    }
}

/// Computes the filtered view of a catalog under a search text and an
/// optional selected category.
///
/// A category stays if the selection lets it through and, where the search
/// text is not empty, at least one of its entries matches; it then holds
/// its matching entries only. With an empty search text the entries of the
/// categories that stay are all kept. Order is the catalog's. A selection
/// that names no category of the catalog gives an empty view.
pub fn compute_filtered_view(
    catalog: &Vec<Category>,
    query: &str,
    selected: &Option<String>,
) -> (view: Vec<Category>)
    ensures
        catalog_view(view@) == filtered_view(
            catalog_view(catalog@),
            query@,
            selection_view(*selected),
        ),
        respects_filters(catalog_view(view@), query@, selection_view(*selected)),
        drawn_from(catalog_view(view@), catalog_view(catalog@), query@),
        view.len() <= catalog.len(),
        query@.len() > 0 || all_populated(catalog_view(catalog@)) ==> all_populated(
            catalog_view(view@),
        ),
{
    let folded = to_lowercase(query);
    let unfiltered = query.is_empty();
    let mut view: Vec<Category> = Vec::new();
    let mut i: usize = 0;
    proof {
        reveal(Seq::filter);
        assert(catalog_view(catalog@.take(0)) =~= Seq::<CategoryView>::empty());
        assert(catalog_view(view@) =~= Seq::<CategoryView>::empty());
    }
    while i < catalog.len()
        invariant
            i <= catalog.len(),
            unfiltered == (query@.len() == 0),
            folded@ == lowercase(query@),
            catalog_view(view@) == filtered_view(
                catalog_view(catalog@.take(i as int)),
                query@,
                selection_view(*selected),
            ),
        decreases catalog.len() - i,
    {
        let ghost before = view@;
        let category = &catalog[i];
        proof {
            lemma_filtered_view_push(
                catalog_view(catalog@.take(i as int)),
                category@,
                query@,
                selection_view(*selected),
            );
            assert(catalog@.take(i + 1) == catalog@.take(i as int).push(*category));
            assert(catalog_view(catalog@.take(i + 1)) == catalog_view(
                catalog@.take(i as int),
            ).push(category@));
        }
        if is_admitted(selected, &category.name) {
            if unfiltered {
                view.push(category.clone());
                proof {
                    assert(catalog_view(view@) == catalog_view(before).push(category@));
                }
            } else {
                let concepts = filter_concepts(&category.concepts, folded.as_str());
                if concepts.len() > 0 {
                    let kept = Category { name: category.name.clone(), concepts };
                    view.push(kept);
                    proof {
                        assert(catalog_view(view@) == catalog_view(before).push(kept@));
                    }
                }
            }
        }
        i += 1;
    }
    proof {
        assert(catalog@.take(i as int) == catalog@);
        lemma_filtered_view_sound(catalog_view(catalog@), query@, selection_view(*selected));
    }
    view
}

} // verus!
