use std::collections::{BTreeMap, BTreeSet};

use ensnano::scadnano::{default_grid, grid_type_of, GridTypeDescr, ScadnanoDomain, ScadnanoStrand};

fn strand(color: &str, domains: Vec<ScadnanoDomain>) -> ScadnanoStrand {
    ScadnanoStrand {
        is_scaffold: false,
        sequence: None,
        color: color.to_string(),
        domains,
        prime5_modification: None,
        prime3_modification: None,
        circular: false,
    }
}

fn helix_domain(helix: usize, deletions: Option<Vec<isize>>) -> ScadnanoDomain {
    ScadnanoDomain::HelixDomain { helix, start: 0, end: 32, forward: true, insertions: None, deletions }
}

#[test]
fn colors_are_read_as_hex() {
    assert_eq!(strand("#ff0000", vec![]).color(), Some(0xFF0000));
    assert_eq!(strand("#0066CC", vec![]).color(), Some(0x0066CC));
    assert_eq!(strand("#zz0000", vec![]).color(), None);
    assert_eq!(strand("#", vec![]).color(), None);
    assert_eq!(strand("", vec![]).color(), None);
}

#[test]
fn grid_names() {
    assert_eq!(default_grid(), "square");
    assert_eq!(grid_type_of("square"), Some(GridTypeDescr::Square));
    assert_eq!(grid_type_of("honeycomb"), Some(GridTypeDescr::Honeycomb));
    assert_eq!(grid_type_of("hexagonal"), None);
    assert_eq!(grid_type_of(""), None);
}

#[test]
fn deletions_are_gathered_by_helix() {
    let s = strand(
        "#000000",
        vec![
            helix_domain(0, Some(vec![5, 3])),
            ScadnanoDomain::Loopout { loopout: 3 },
            helix_domain(1, None),
            helix_domain(0, Some(vec![3, -1])),
            helix_domain(2, Some(vec![])),
        ],
    );
    let mut map: BTreeMap<usize, BTreeSet<isize>> = BTreeMap::new();
    map.insert(7, BTreeSet::from([1]));
    s.read_deletions(&mut map);
    assert_eq!(map.len(), 3);
    assert_eq!(map[&0].iter().copied().collect::<Vec<_>>(), vec![-1, 3, 5]);
    assert!(map[&2].is_empty());
    assert!(!map.contains_key(&1));
    assert_eq!(map[&7].len(), 1);
}
