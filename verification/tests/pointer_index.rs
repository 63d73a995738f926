use std::collections::BTreeMap;
use witnessing::pointer_index::FootprintState;
use witnessing::sub_index::SubIndex;
use witnessing::traced_value::Reference;

fn path(p: &[usize]) -> SubIndex {
    SubIndex::from_path(&p.to_vec()).unwrap()
}

fn addressing(entries: &[(usize, &[usize])]) -> BTreeMap<usize, SubIndex> {
    entries.iter().map(|(a, p)| (*a, path(p))).collect()
}

fn agree(state: &FootprintState, slots: &[(usize, usize)], addresses: &[usize]) -> bool {
    addresses.iter().all(|a| {
        let forward: Vec<Reference> = slots
            .iter()
            .filter_map(|(f, l)| state.addressing(*f, *l, *a).map(|p| Reference::new(*f, *l, p)))
            .collect();
        match state.lookup(*a) {
            Some(r) => forward == vec![r],
            None => forward.is_empty(),
        }
    })
}

#[test]
fn new_index_is_empty() {
    let state = FootprintState::new();
    assert_eq!(state.len(), 0);
    assert_eq!(state.lookup(1), None);
    assert_eq!(state.addressing(0, 0, 1), None);
    assert!(state.reverse_local_value_addressings().is_empty());
}

#[test]
fn add_local_points_each_address_at_the_local() {
    let mut state = FootprintState::new();
    state.add_local(2, 3, addressing(&[(10, &[]), (11, &[1]), (12, &[1, 2])]));
    assert_eq!(state.len(), 3);
    assert_eq!(state.lookup(10), Some(Reference::new(2, 3, path(&[]))));
    assert_eq!(state.lookup(11), Some(Reference::new(2, 3, path(&[1]))));
    assert_eq!(state.lookup(12), Some(Reference::new(2, 3, path(&[1, 2]))));
    assert_eq!(state.lookup(13), None);
    assert_eq!(state.addressing(2, 3, 12), Some(path(&[1, 2])));
    assert_eq!(state.addressing(2, 4, 12), None);
    assert_eq!(state.addressing(3, 3, 12), None);
}

#[test]
fn remove_local_purges_only_that_local() {
    let mut state = FootprintState::new();
    state.add_local(0, 0, addressing(&[(10, &[]), (11, &[1])]));
    state.add_local(0, 1, addressing(&[(20, &[])]));
    state.add_local(1, 0, addressing(&[(30, &[])]));
    state.remove_local(0, 0);
    assert_eq!(state.len(), 2);
    assert_eq!(state.lookup(10), None);
    assert_eq!(state.lookup(11), None);
    assert_eq!(state.addressing(0, 0, 10), None);
    assert_eq!(state.lookup(20), Some(Reference::new(0, 1, path(&[]))));
    assert_eq!(state.lookup(30), Some(Reference::new(1, 0, path(&[]))));
    state.remove_local(5, 5);
    assert_eq!(state.len(), 2);
}

#[test]
fn remove_locals_purges_the_frame() {
    let mut state = FootprintState::new();
    state.add_local(3, 0, addressing(&[(10, &[])]));
    state.add_local(3, 1, addressing(&[(11, &[])]));
    state.add_local(2, 0, addressing(&[(12, &[])]));
    state.remove_locals(3);
    assert_eq!(state.len(), 1);
    assert_eq!(state.lookup(10), None);
    assert_eq!(state.lookup(11), None);
    assert_eq!(state.addressing(3, 0, 10), None);
    assert_eq!(state.addressing(3, 1, 11), None);
    assert_eq!(state.lookup(12), Some(Reference::new(2, 0, path(&[]))));
    for (_, reference) in state.reverse_local_value_addressings().iter() {
        assert_ne!(reference.frame_index, 3);
    }
}

#[test]
fn the_two_maps_agree_along_a_run_of_stores_and_removals() {
    let slots = [(0, 0), (0, 1), (1, 0)];
    let addresses = [10, 11, 20, 30, 40];
    let mut state = FootprintState::new();
    assert!(agree(&state, &slots, &addresses));
    state.add_local(0, 0, addressing(&[(10, &[]), (11, &[1])]));
    assert!(agree(&state, &slots, &addresses));
    state.add_local(0, 1, addressing(&[(20, &[])]));
    assert!(agree(&state, &slots, &addresses));
    state.remove_local(0, 0);
    state.add_local(0, 0, addressing(&[(30, &[])]));
    assert!(agree(&state, &slots, &addresses));
    state.add_local(1, 0, addressing(&[(40, &[2])]));
    assert!(agree(&state, &slots, &addresses));
    state.remove_locals(0);
    assert!(agree(&state, &slots, &addresses));
    assert_eq!(state.len(), 1);
}

#[test]
fn an_address_under_two_locals_belongs_to_the_later_one() {
    let mut state = FootprintState::new();
    state.add_local(0, 0, addressing(&[(10, &[])]));
    state.add_local(0, 1, addressing(&[(10, &[1])]));
    assert_eq!(state.lookup(10), Some(Reference::new(0, 1, path(&[1]))));
    assert_eq!(state.addressing(0, 0, 10), Some(path(&[])));
    assert!(!agree(&state, &[(0, 0), (0, 1)], &[10]));
}

#[test]
fn snapshot_is_independent() {
    let mut state = FootprintState::new();
    state.add_local(0, 0, addressing(&[(10, &[])]));
    let copy = state.snapshot();
    state.remove_local(0, 0);
    assert_eq!(state.len(), 0);
    assert_eq!(copy.len(), 1);
    assert_eq!(copy.lookup(10), Some(Reference::new(0, 0, path(&[]))));
}
