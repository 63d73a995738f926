use witnessing::sub_index::SubIndex;

fn path(p: &[usize]) -> SubIndex {
    SubIndex::from_path(&p.to_vec()).unwrap()
}

#[test]
fn root_is_the_empty_path() {
    let root = SubIndex::root();
    assert_eq!(root.slots, [0u16; 8]);
    assert_eq!(root.depth(), 0);
    assert!(root.is_root());
    assert_eq!(root.to_path(), Vec::<u16>::new());
    assert_eq!(path(&[]), root);
    assert_eq!(path(&[0]), root);
    assert_eq!(path(&[0, 0, 0]), root);
}

#[test]
fn depth_is_highest_nonzero_slot_plus_one() {
    assert_eq!(path(&[5]).depth(), 1);
    assert_eq!(path(&[1, 0, 2]).depth(), 3);
    assert_eq!(path(&[1, 0, 2, 0, 0]).depth(), 3);
    assert_eq!(path(&[0, 0, 0, 0, 0, 0, 0, 9]).depth(), 8);
    assert!(!path(&[0, 1]).is_root());
}

#[test]
fn from_path_validates_the_bounds() {
    assert_eq!(path(&[1, 2, 3]).slots, [1, 2, 3, 0, 0, 0, 0, 0]);
    assert_eq!(path(&[65535]).slots[0], 65535);
    assert_eq!(SubIndex::from_path(&vec![65536]), None);
    assert_eq!(SubIndex::from_path(&vec![1, 1, 1, 1, 1, 1, 1, 1, 1]), None);
    assert_eq!(SubIndex::from_path(&vec![0, 0, 0, 0, 0, 0, 0, 0, 1]), None);
    assert_eq!(
        SubIndex::from_path(&vec![1, 2, 3, 4, 5, 6, 7, 8, 0, 0]),
        Some(SubIndex { slots: [1, 2, 3, 4, 5, 6, 7, 8] })
    );
    assert_eq!(SubIndex::from_path(&vec![1, 2, 3, 4, 5, 6, 7, 8, 0, 70000]), None);
}

#[test]
fn get_reads_a_slot() {
    let p = path(&[4, 5]);
    assert_eq!(p.get(0), 4);
    assert_eq!(p.get(1), 5);
    assert_eq!(p.get(2), 0);
    assert_eq!(p.get(7), 0);
}

#[test]
fn push_appends_after_the_last_used_slot() {
    let mut p = SubIndex::root();
    p.push(3);
    assert_eq!(p, path(&[3]));
    p.push(0);
    assert_eq!(p, path(&[3]));
    p.push(7);
    assert_eq!(p, path(&[3, 7]));
    let mut q = path(&[1, 0]);
    q.push(2);
    assert_eq!(q, path(&[1, 2]));
}

#[test]
fn checked_push_refuses_what_does_not_fit() {
    assert_eq!(path(&[1]).checked_push(2), Some(path(&[1, 2])));
    assert_eq!(path(&[1]).checked_push(0), Some(path(&[1])));
    assert_eq!(path(&[1]).checked_push(65535), Some(path(&[1, 65535])));
    assert_eq!(path(&[1]).checked_push(65536), None);
    let full = path(&[1, 2, 3, 4, 5, 6, 7, 8]);
    assert_eq!(full.checked_push(1), None);
    assert_eq!(full.checked_push(0), Some(full));
}

#[test]
fn insert_shifts_the_tail_up() {
    let mut p = path(&[1, 2, 3]);
    p.insert(1, 9);
    assert_eq!(p, path(&[1, 9, 2, 3]));
    p.insert(0, 8);
    assert_eq!(p, path(&[8, 1, 9, 2, 3]));
    p.insert(5, 7);
    assert_eq!(p, path(&[8, 1, 9, 2, 3, 7]));
    let mut q = path(&[1, 2]);
    q.insert(2, 0);
    assert_eq!(q, path(&[1, 2]));
}

#[test]
fn remove_shifts_the_tail_down() {
    let mut p = path(&[1, 2, 3]);
    assert_eq!(p.remove(1), 2);
    assert_eq!(p, path(&[1, 3]));
    assert_eq!(p.remove(1), 3);
    assert_eq!(p, path(&[1]));
    assert_eq!(p.remove(0), 1);
    assert_eq!(p, SubIndex::root());
    let mut q = path(&[1, 0, 2]);
    assert_eq!(q.remove(2), 2);
    assert_eq!(q, path(&[1]));
    let mut full = path(&[1, 2, 3, 4, 5, 6, 7, 8]);
    assert_eq!(full.remove(0), 1);
    assert_eq!(full, path(&[2, 3, 4, 5, 6, 7, 8]));
}

#[test]
fn parents_are_the_strict_ancestors_nearest_first() {
    assert_eq!(path(&[1, 2, 3]).parents(), vec![path(&[1, 2]), path(&[1]), path(&[])]);
    assert_eq!(SubIndex::root().parents(), Vec::<SubIndex>::new());
    assert_eq!(path(&[4]).parents(), vec![SubIndex::root()]);
    assert_eq!(path(&[1, 0, 2]).parents(), vec![path(&[1]), path(&[1]), path(&[])]);
}

#[test]
fn concat_strips_then_appends() {
    let a = path(&[1, 2, 0, 0]);
    let b = path(&[3, 4]);
    let c = a.concat(&b);
    assert_eq!(c, path(&[1, 2, 3, 4]));
    assert_eq!(c.depth(), a.depth() + b.depth());
    assert_eq!(SubIndex::root().concat(&b), b);
    assert_eq!(a.concat(&SubIndex::root()), a);
    let d = path(&[1, 2, 3, 4]).concat(&path(&[5, 6, 7, 8]));
    assert_eq!(d, path(&[1, 2, 3, 4, 5, 6, 7, 8]));
    assert_eq!(d.depth(), 8);
}

#[test]
fn number_has_slot_i_in_bits_16i() {
    assert_eq!(SubIndex::root().to_u128(), 0);
    assert_eq!(path(&[1]).to_u128(), 1);
    assert_eq!(path(&[1, 2]).to_u128(), 0x2_0001);
    assert_eq!(path(&[0, 0, 3]).to_u128(), 3u128 << 32);
    assert_eq!(
        path(&[1, 2, 3, 4, 5, 6, 7, 8]).to_u128(),
        0x0008_0007_0006_0005_0004_0003_0002_0001
    );
    assert_eq!(SubIndex { slots: [0xffff; 8] }.to_u128(), u128::MAX);
    assert_eq!(SubIndex::from_u128(0x2_0001), path(&[1, 2]));
    assert_eq!(SubIndex::from_u128(u128::MAX), SubIndex { slots: [0xffff; 8] });
    assert_eq!(SubIndex::from_u128(0xabcd << 112), path(&[0, 0, 0, 0, 0, 0, 0, 0xabcd]));
}

#[test]
fn number_round_trips() {
    for p in [path(&[]), path(&[7]), path(&[1, 0, 65535]), path(&[9, 8, 7, 6, 5, 4, 3, 2])] {
        assert_eq!(SubIndex::from_u128(p.to_u128()), p);
    }
    for x in [0u128, 1, 0xdead_beef, u128::MAX, 1 << 127, 0x1234_5678_9abc_def0_0fed_cba9_8765_4321] {
        assert_eq!(SubIndex::from_u128(x).to_u128(), x);
    }
}

#[test]
fn strictly_under_is_strict_prefix() {
    assert!(path(&[1, 2]).is_strictly_under(&path(&[1])));
    assert!(path(&[1, 2]).is_strictly_under(&path(&[])));
    assert!(!path(&[1, 2]).is_strictly_under(&path(&[1, 2])));
    assert!(!path(&[1, 2]).is_strictly_under(&path(&[2])));
    assert!(!path(&[1]).is_strictly_under(&path(&[1, 2])));
    assert!(!path(&[]).is_strictly_under(&path(&[])));
    assert!(path(&[1, 2, 3]).is_strictly_under(&path(&[1, 2])));
    assert!(!path(&[1, 3, 3]).is_strictly_under(&path(&[1, 2])));
}

#[test]
fn to_path_drops_unused_slots() {
    assert_eq!(path(&[1, 0, 2, 0]).to_path(), vec![1, 0, 2]);
}
