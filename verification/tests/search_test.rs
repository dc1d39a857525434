use collab_integrate::ids::{Uuid, UuidError};
use collab_integrate::search::{
    find_view, join_results, scope_from, search_scope, IconSource, SearchFilter, SearchHit,
    SearchMatch, ViewRecord,
};

fn view(id: u128, has_icon: bool, layout: i64) -> ViewRecord {
    ViewRecord { id: Uuid::from_u128(id).to_text(), has_icon, layout }
}

fn hit(object: u128) -> SearchHit {
    SearchHit { object_id: Uuid::from_u128(object), workspace_id: Uuid::from_u128(9) }
}

#[test]
fn no_filter_searches_nothing() {
    assert_eq!(search_scope(&None), Ok(None));
}

#[test]
fn filter_without_workspace_searches_nothing() {
    assert_eq!(search_scope(&Some(SearchFilter { workspace_id: None })), Ok(None));
}

#[test]
fn filter_with_workspace_searches_it() {
    let filter = SearchFilter {
        workspace_id: Some("550e8400-e29b-41d4-a716-446655440000".to_string()),
    };
    assert_eq!(
        search_scope(&Some(filter)),
        Ok(Some(Uuid::from_u128(0x550e8400e29b41d4a716446655440000)))
    );
}

#[test]
fn filter_with_malformed_workspace_is_an_error() {
    let filter = SearchFilter { workspace_id: Some("workspace".to_string()) };
    assert_eq!(search_scope(&Some(filter)), Err(UuidError::Malformed));
}

#[test]
fn scope_from_each_reading() {
    let id = Uuid::from_u128(5);
    assert_eq!(scope_from(None), Ok(None));
    assert_eq!(scope_from(Some(Ok(id))), Ok(Some(id)));
    assert_eq!(scope_from(Some(Err(UuidError::Malformed))), Err(UuidError::Malformed));
}

#[test]
fn find_view_returns_the_first_match() {
    let views = vec![view(1, false, 0), view(2, true, 1), view(2, false, 3)];
    assert_eq!(find_view(&views, &Uuid::from_u128(2).to_text()), Some(1));
    assert_eq!(find_view(&views, &Uuid::from_u128(1).to_text()), Some(0));
    assert_eq!(find_view(&views, &Uuid::from_u128(3).to_text()), None);
    assert_eq!(find_view(&Vec::new(), &Uuid::from_u128(3).to_text()), None);
}

#[test]
fn join_keeps_results_with_a_view_in_order() {
    let views = vec![view(10, true, 0), view(20, false, 2), view(30, false, 5)];
    let hits = vec![hit(30), hit(99), hit(10), hit(20), hit(10)];
    assert_eq!(
        join_results(&hits, &views),
        vec![
            SearchMatch { hit: 0, view: 2, icon: IconSource::Layout(5) },
            SearchMatch { hit: 2, view: 0, icon: IconSource::View },
            SearchMatch { hit: 3, view: 1, icon: IconSource::Layout(2) },
            SearchMatch { hit: 4, view: 0, icon: IconSource::View },
        ]
    );
}

#[test]
fn join_of_nothing_is_nothing() {
    let views = vec![view(10, true, 0)];
    assert_eq!(join_results(&Vec::new(), &views), Vec::new());
    assert_eq!(join_results(&vec![hit(10)], &Vec::new()), Vec::new());
}

#[test]
fn join_compares_with_the_hyphenated_text() {
    let views = vec![
        ViewRecord { id: "0000000000000000000000000000000a".to_string(), has_icon: true, layout: 0 },
        ViewRecord { id: "00000000-0000-0000-0000-00000000000A".to_string(), has_icon: true, layout: 0 },
        ViewRecord { id: "00000000-0000-0000-0000-00000000000a".to_string(), has_icon: false, layout: 4 },
    ];
    assert_eq!(
        join_results(&vec![hit(10)], &views),
        vec![SearchMatch { hit: 0, view: 2, icon: IconSource::Layout(4) }]
    );
}
