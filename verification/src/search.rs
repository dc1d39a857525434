//! Document search: which workspace a query goes to, and how the remote
//! results are joined with the views that the folder knows.

use crate::ids::{Uuid, UuidError};
use vstd::prelude::*;

verus! {

/// What narrows a search.
#[derive(Debug)]
pub struct SearchFilter {
    /// The workspace to search, in text form.
    pub workspace_id: Option<String>,
}

/// One result of the remote search, as far as the join reads it.
#[derive(Clone, Copy, Debug, PartialEq, Eq, Structural)]
pub struct SearchHit {
    pub object_id: Uuid,
    pub workspace_id: Uuid,
}

/// One view of the folder, as far as the join reads it.
#[derive(Debug)]
pub struct ViewRecord {
    /// The view's identifier, in text form.
    pub id: String,
    /// Whether the view has an icon of its own.
    pub has_icon: bool,
    /// The number of the view's layout.
    pub layout: i64,
}

/// Where the icon of a search result comes from.
#[derive(Clone, Copy, Debug, PartialEq, Eq, Structural)]
pub enum IconSource {
    /// The view's own icon.
    View,
    /// The stock icon of the layout with this number.
    Layout(i64),
}

/// A remote result that has a view: `hit` is its index among the results,
/// `view` the index of its view among the views.
#[derive(Clone, Copy, Debug, PartialEq, Eq, Structural)]
pub struct SearchMatch {
    pub hit: usize,
    pub view: usize,
    pub icon: IconSource,
}

/// The text of the workspace that a filter names, if it names one.
pub open spec fn filter_workspace(filter: Option<SearchFilter>) -> Option<Seq<char>> {
    match filter {
        Some(SearchFilter { workspace_id: Some(text) }) => Some(text@),
        _ => None,
    }
}

/// The scope of a search, given what reading the workspace of its filter
/// gave, if the filter names one: no workspace, nothing to search; a
/// workspace that could not be read, that error.
pub open spec fn scope_of(workspace: Option<Result<Uuid, UuidError>>) -> Result<
    Option<Uuid>,
    UuidError,
> {
    match workspace {
        None => Ok(None),
        Some(Ok(id)) => Ok(Some(id)),
        Some(Err(err)) => Err(err),
    }
}

/// What reading the workspace of a filter gives, if the filter names one.
pub open spec fn parsed_workspace(workspace: Option<Seq<char>>) -> Option<Result<Uuid, UuidError>> {
    match workspace {
        None => None,
        Some(text) => Some(Uuid::parse_result(text)),
    }
}

/// Decides the scope of a search from the workspace of its filter, as far as
/// it was named and could be read.
pub fn scope_from(workspace: Option<Result<Uuid, UuidError>>) -> (scope: Result<
    Option<Uuid>,
    UuidError,
>)
    ensures
        scope == scope_of(workspace),
{
    match workspace {
        None => Ok(None),
        Some(Ok(id)) => Ok(Some(id)),
        Some(Err(err)) => Err(err),
    }
}

/// Decides which workspace a query is sent to. Without a filter, or with a
/// filter that names no workspace, nothing is searched; a workspace whose text
/// is no identifier is an error.
pub fn search_scope(filter: &Option<SearchFilter>) -> (scope: Result<Option<Uuid>, UuidError>)
    ensures
        scope == scope_of(parsed_workspace(filter_workspace(*filter))),
{
    let workspace = match filter {
        None => None,
        Some(filter) => match &filter.workspace_id {
            None => None,
            Some(text) => Some(Uuid::parse_str(text.as_str())),
        },
    };
    scope_from(workspace)
}

/// Whether `j` is the index of the first view whose identifier is `id`.
pub open spec fn is_first_view(views: Seq<ViewRecord>, id: Seq<char>, j: int) -> bool {
    &&& 0 <= j < views.len()
    &&& views[j].id@ == id
    &&& forall|k: int| 0 <= k < j ==> (#[trigger] views[k]).id@ != id
}

/// Whether some view has the identifier `id`.
pub open spec fn has_view(views: Seq<ViewRecord>, id: Seq<char>) -> bool {
    exists|j: int| 0 <= j < views.len() && (#[trigger] views[j]).id@ == id
}

/// The index of the first view whose identifier is `id`, if there is one.
pub open spec fn first_view(views: Seq<ViewRecord>, id: Seq<char>) -> Option<int> {
    if exists|j: int| is_first_view(views, id, j) {
        Some(choose|j: int| is_first_view(views, id, j))
    } else {
        None
    }
}

/// The icon source of a view.
pub open spec fn icon_of(view: ViewRecord) -> IconSource {
    if view.has_icon {
        IconSource::View
    } else {
        IconSource::Layout(view.layout)
    }
}

/// The matches of the given results, in the order of the results: one for
/// each result that has a view, with the first such view.
pub open spec fn joined(hits: Seq<SearchHit>, views: Seq<ViewRecord>) -> Seq<SearchMatch>
    decreases hits.len(),
{
    if hits.len() == 0 {
        Seq::empty()
    } else {
        let last = hits.len() - 1;
        let before = joined(hits.drop_last(), views);
        match first_view(views, hits[last].object_id.text()) {
            Some(j) => before.push(
                SearchMatch { hit: last as usize, view: j as usize, icon: icon_of(views[j]) },
            ),
            None => before,
        }
    }
}

/// No two indices are the first view of one identifier.
pub proof fn lemma_first_view_unique(views: Seq<ViewRecord>, id: Seq<char>, j: int)
    requires
        is_first_view(views, id, j),
    ensures
        first_view(views, id) == Some(j),
{
    let c = choose|c: int| is_first_view(views, id, c);
    assert(is_first_view(views, id, c));
    if c < j {
        assert(views[c].id@ != id);
    } else if j < c {
        assert(views[j].id@ != id);
    }
}

/// Finds the first view whose identifier is `id`.
pub fn find_view(views: &Vec<ViewRecord>, id: &String) -> (found: Option<usize>)
    ensures
        found matches Some(j) ==> is_first_view(views@, id@, j as int),
        found is None ==> !has_view(views@, id@),
        match found {
            Some(j) => first_view(views@, id@) == Some(j as int),
            None => first_view(views@, id@) is None,
        },
{
    let mut j: usize = 0;
    while j < views.len()
        invariant
            j <= views.len(),
            forall|k: int| 0 <= k < j ==> (#[trigger] views@[k]).id@ != id@,
        decreases views.len() - j,
    {
        if views[j].id == *id {
            proof {
                lemma_first_view_unique(views@, id@, j as int);
            }
            return Some(j);
        }
        j += 1;
    }
    assert(forall|c: int| !is_first_view(views@, id@, c));
    None
}

/// Joins the results of the remote search with the views of the folder. A
/// result without a view is left out; the others keep their order, each with
/// the first view that has its identifier and with the source of its icon.
pub fn join_results(hits: &Vec<SearchHit>, views: &Vec<ViewRecord>) -> (matches: Vec<SearchMatch>)
    ensures
        matches@ == joined(hits@, views@),
{
    let mut matches: Vec<SearchMatch> = Vec::new();
    let mut i: usize = 0;
    while i < hits.len()
        invariant
            i <= hits.len(),
            matches@ == joined(hits@.take(i as int), views@),
        decreases hits.len() - i,
    {
        let id = hits[i].object_id.to_text();
        let found = find_view(views, &id);
        proof {
            let prefix = hits@.take(i + 1);
            assert(prefix.drop_last() == hits@.take(i as int));
            assert(prefix[i as int] == hits@[i as int]);
        }
        match found {
            Some(j) => {
                let icon = if views[j].has_icon {
                    IconSource::View
                } else {
                    IconSource::Layout(views[j].layout)
                };
                matches.push(SearchMatch { hit: i, view: j, icon });
            },
            None => {},
        }
        i += 1;
    }
    assert(hits@.take(hits.len() as int) == hits@);
    matches
}

/// A result is among the matches exactly if some view has its identifier.
pub proof fn lemma_joined_covers(hits: Seq<SearchHit>, views: Seq<ViewRecord>, i: int)
    requires
        0 <= i < hits.len(),
        hits.len() <= usize::MAX,
        views.len() <= usize::MAX,
    ensures
        has_view(views, hits[i].object_id.text()) <==> exists|k: int|
            0 <= k < joined(hits, views).len() && (#[trigger] joined(hits, views)[k]).hit == i,
    decreases hits.len(),
{
    let last = hits.len() - 1;
    let before = joined(hits.drop_last(), views);
    let all = joined(hits, views);
    lemma_joined_bounds(hits.drop_last(), views);
    if i < last {
        lemma_joined_covers(hits.drop_last(), views, i);
        assert(hits.drop_last()[i] == hits[i]);
        if has_view(views, hits[i].object_id.text()) {
            let k = choose|k: int| 0 <= k < before.len() && (#[trigger] before[k]).hit == i;
            assert(all[k] == before[k]);
        }
        if exists|k: int| 0 <= k < all.len() && (#[trigger] all[k]).hit == i {
            let k = choose|k: int| 0 <= k < all.len() && (#[trigger] all[k]).hit == i;
            if k < before.len() {
                assert(before[k] == all[k]);
            }
        }
    } else {
        let id = hits[last].object_id.text();
        if has_view(views, id) {
            lemma_has_first_view(views, id);
            assert(all[all.len() - 1].hit == i);
        } else {
            assert(forall|j: int| !is_first_view(views, id, j));
            assert(all == before);
            assert forall|k: int| 0 <= k < all.len() implies (#[trigger] all[k]).hit != i by {}
        }
    }
}

/// Every match names a result and a view that exist, and the view is the
/// first one with the result's identifier.
pub proof fn lemma_joined_bounds(hits: Seq<SearchHit>, views: Seq<ViewRecord>)
    requires
        hits.len() <= usize::MAX,
        views.len() <= usize::MAX,
    ensures
        joined(hits, views).len() <= hits.len(),
        forall|k: int|
            0 <= k < joined(hits, views).len() ==> {
                let m = #[trigger] joined(hits, views)[k];
                &&& m.hit < hits.len()
                &&& is_first_view(views, hits[m.hit as int].object_id.text(), m.view as int)
                &&& m.icon == icon_of(views[m.view as int])
            },
        forall|k: int, l: int|
            0 <= k < l < joined(hits, views).len() ==> (#[trigger] joined(hits, views)[k]).hit < (
            #[trigger] joined(hits, views)[l]).hit,
    decreases hits.len(),
{
    if hits.len() > 0 {
        let last = hits.len() - 1;
        let before = joined(hits.drop_last(), views);
        let all = joined(hits, views);
        lemma_joined_bounds(hits.drop_last(), views);
        let id = hits[last].object_id.text();
        assert forall|k: int| 0 <= k < before.len() implies {
            let m = #[trigger] before[k];
            &&& m.hit < last
            &&& hits.drop_last()[m.hit as int] == hits[m.hit as int]
        } by {}
        if first_view(views, id) is Some {
            let j = first_view(views, id).unwrap();
            assert(is_first_view(views, id, j));
            assert(all == before.push(all[all.len() - 1]));
        }
    }
}

/// Where some view has the identifier, there is a first such view.
pub proof fn lemma_has_first_view(views: Seq<ViewRecord>, id: Seq<char>)
    requires
        has_view(views, id),
    ensures
        first_view(views, id) is Some,
        is_first_view(views, id, first_view(views, id).unwrap()),
    decreases views.len(),
{
    let j = choose|j: int| 0 <= j < views.len() && (#[trigger] views[j]).id@ == id;
    lemma_least_view(views, id, j);
}

/// Below any view with the identifier there is a first one.
proof fn lemma_least_view(views: Seq<ViewRecord>, id: Seq<char>, j: int)
    requires
        0 <= j < views.len(),
        views[j].id@ == id,
    ensures
        exists|c: int| is_first_view(views, id, c),
    decreases j,
{
    if exists|k: int| 0 <= k < j && (#[trigger] views[k]).id@ == id {
        let k = choose|k: int| 0 <= k < j && (#[trigger] views[k]).id@ == id;
        lemma_least_view(views, id, k);
    } else {
        assert(is_first_view(views, id, j));
    }
}

} // verus!
