use chrono::{NaiveDate, NaiveDateTime};
use spotify_mcp::error::Failure;
use spotify_mcp::model::excluded_artist::{
    excluded, listed, ExcludedArtist, ExclusionList, InsertInput, Membership,
};

fn at(day: u32) -> NaiveDateTime {
    NaiveDate::from_ymd_opt(2024, 5, day).unwrap().and_hms_opt(12, 0, 0).unwrap()
}

fn ids(list: &[&str]) -> Vec<String> {
    list.iter().map(|id| id.to_string()).collect()
}

fn input(id: &str, name: &str) -> InsertInput {
    InsertInput::new(id.to_string(), name.to_string())
}

fn row(id: &str, name: &str, day: u32) -> ExcludedArtist {
    ExcludedArtist { id: id.to_string(), name: name.to_string(), created_at: at(day) }
}

#[test]
fn insert_input_keeps_what_it_was_given() {
    let input = InsertInput::new("abc".to_string(), "The Band".to_string());
    assert_eq!(input.id(), "abc");
    assert_eq!(input.name(), "The Band");
}

#[test]
fn find_by_no_ids_is_empty() {
    let mut list = ExclusionList::new();
    ExcludedArtist::insert(&mut list, &input("a", "A"), at(1)).unwrap();
    assert_eq!(ExcludedArtist::find_by_ids(&list, &ids(&[])), Vec::new());
}

#[test]
fn find_by_ids_returns_the_listed_rows() {
    let mut list = ExclusionList::new();
    ExcludedArtist::insert(&mut list, &input("a", "A"), at(1)).unwrap();
    ExcludedArtist::insert(&mut list, &input("b", "B"), at(2)).unwrap();
    ExcludedArtist::insert(&mut list, &input("c", "C"), at(3)).unwrap();
    let found = ExcludedArtist::find_by_ids(&list, &ids(&["c", "x", "a"]));
    assert_eq!(found, vec![row("c", "C", 3), row("a", "A", 1)]);
}

#[test]
fn find_by_ids_orders_by_falling_identifier_whatever_the_order_of_insertion() {
    let mut forward = ExclusionList::new();
    ExcludedArtist::insert(&mut forward, &input("a", "A"), at(1)).unwrap();
    ExcludedArtist::insert(&mut forward, &input("b", "B"), at(2)).unwrap();
    let mut backward = ExclusionList::new();
    ExcludedArtist::insert(&mut backward, &input("b", "B"), at(2)).unwrap();
    ExcludedArtist::insert(&mut backward, &input("a", "A"), at(1)).unwrap();
    let expected = vec![row("b", "B", 2), row("a", "A", 1)];
    assert_eq!(ExcludedArtist::find_by_ids(&forward, &ids(&["a", "b"])), expected);
    assert_eq!(ExcludedArtist::find_by_ids(&backward, &ids(&["a", "b"])), expected);
    assert_eq!(ExcludedArtist::find_by_ids(&forward, &ids(&["b", "a"])), expected);
}

#[test]
fn find_by_ids_orders_identifiers_by_their_bytes() {
    let mut list = ExclusionList::new();
    for id in ["b", "", "ab", "B", "a", "é", "abc", "z", "a0"] {
        ExcludedArtist::insert(&mut list, &input(id, "n"), at(1)).unwrap();
    }
    let all = ids(&["", "B", "a", "a0", "ab", "abc", "b", "z", "é"]);
    let found: Vec<String> =
        ExcludedArtist::find_by_ids(&list, &all).into_iter().map(|row| row.id).collect();
    assert_eq!(found, ids(&["é", "z", "b", "abc", "ab", "a0", "a", "B", ""]));
    let some: Vec<String> = ExcludedArtist::find_by_ids(&list, &ids(&["a", "z", "ab", "none"]))
        .into_iter()
        .map(|row| row.id)
        .collect();
    assert_eq!(some, ids(&["z", "ab", "a"]));
}

#[test]
fn contains_any_of_nothing_is_nothing() {
    let rows = vec![row("a", "A", 1)];
    assert_eq!(ExcludedArtist::contains_any(&rows, &ids(&[])), Vec::new());
}

#[test]
fn contains_any_flags_exactly_the_excluded() {
    let rows = vec![row("a", "A", 1)];
    assert_eq!(
        ExcludedArtist::contains_any(&rows, &ids(&["a", "b"])),
        vec![
            Membership { id: "a".to_string(), excluded: true },
            Membership { id: "b".to_string(), excluded: false },
        ]
    );
}

#[test]
fn contains_any_does_not_depend_on_the_order() {
    let rows = vec![row("a", "A", 1), row("c", "C", 2)];
    let forward = ExcludedArtist::contains_any(&rows, &ids(&["a", "b", "c"]));
    let mut backward = ExcludedArtist::contains_any(&rows, &ids(&["c", "b", "a"]));
    backward.reverse();
    assert_eq!(forward, backward);
    let shuffled_rows = vec![row("c", "C", 2), row("a", "A", 1)];
    assert_eq!(ExcludedArtist::contains_any(&shuffled_rows, &ids(&["a", "b", "c"])), forward);
}

#[test]
fn insert_returns_the_new_row() {
    let mut list = ExclusionList::new();
    assert_eq!(list.len(), 0);
    let inserted = ExcludedArtist::insert(&mut list, &input("a", "A"), at(7));
    assert_eq!(inserted, Ok(row("a", "A", 7)));
    assert_eq!(list.len(), 1);
}

#[test]
fn insert_of_a_present_id_is_a_duplicate_and_changes_nothing() {
    let mut list = ExclusionList::new();
    ExcludedArtist::insert(&mut list, &input("a", "A"), at(1)).unwrap();
    ExcludedArtist::insert(&mut list, &input("b", "B"), at(2)).unwrap();
    let again = ExcludedArtist::insert(&mut list, &input("a", "Another name"), at(3));
    assert_eq!(again, Err(Failure::DuplicateExclusion { id: "a".to_string() }));
    assert_eq!(list.len(), 2);
    assert_eq!(
        ExcludedArtist::find_by_ids(&list, &ids(&["a", "b"])),
        vec![row("b", "B", 2), row("a", "A", 1)]
    );
}

#[test]
fn listed_and_excluded_compare_whole_identifiers() {
    assert!(listed(&ids(&["ab", "c"]), &"ab".to_string()));
    assert!(!listed(&ids(&["ab", "c"]), &"a".to_string()));
    assert!(!listed(&ids(&[]), &"a".to_string()));
    let rows = vec![row("ab", "A", 1)];
    assert!(excluded(&rows, &"ab".to_string()));
    assert!(!excluded(&rows, &"abc".to_string()));
}

#[test]
fn a_clone_of_a_row_equals_the_row() {
    let original = row("a", "A", 1);
    assert_eq!(original.clone(), original);
}
