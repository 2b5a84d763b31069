use policy_utils::{FileRights, Rights, RightsMap};

const READ: u32 = 1 << 1;
const WRITE: u32 = 1 << 6;

#[test]
fn truncation_drops_unknown_bits() {
    let r = Rights::from_bits_truncate(0xffff_ffff_ffff_ffff);
    assert_eq!(r.bits(), 0x0fff_ffff);
    let r = Rights::from_bits_truncate(0x1000_0002);
    assert_eq!(r.bits(), 2);
}

#[test]
fn subset_test_and_union() {
    let rw = Rights::from_bits_truncate((READ | WRITE) as u64);
    let r = Rights::from_bits_truncate(READ as u64);
    assert!(rw.contains(&r));
    assert!(!r.contains(&rw));
    assert_eq!(r.union(&Rights::from_bits_truncate(WRITE as u64)), rw);
    assert!(Rights::empty().is_empty());
    assert!(!Rights::empty().contains(&r));
    assert!(rw.contains(&Rights::empty()));
    assert!(Rights::all().contains(&rw));
    assert_eq!(Rights::all().bits(), 0x0fff_ffff);
}

#[test]
fn file_rights_accessors() {
    let f = FileRights::new("data.txt".to_string(), READ);
    assert_eq!(f.file_name(), "data.txt");
    assert_eq!(*f.rights(), READ);
}

#[test]
fn last_write_wins_per_name() {
    let v = vec![
        FileRights::new("a".to_string(), READ | WRITE),
        FileRights::new("b".to_string(), WRITE),
        FileRights::new("a".to_string(), READ),
    ];
    let m = FileRights::compute_right_map(&v);
    assert_eq!(m.get("a").map(|r| r.bits()), Some(READ as u64));
    assert_eq!(m.get("b").map(|r| r.bits()), Some(WRITE as u64));
    assert_eq!(m.get("c"), None);
}

#[test]
fn later_entry_replaces_rather_than_merges() {
    let v = vec![
        FileRights::new("x".to_string(), WRITE),
        FileRights::new("x".to_string(), READ),
    ];
    let m = FileRights::compute_right_map(&v);
    assert_eq!(m.rights_of("x").bits(), READ as u64);
    assert!(!m.rights_of("x").contains(&Rights::from_bits_truncate(WRITE as u64)));
}

#[test]
fn empty_list_gives_empty_map() {
    let m = FileRights::compute_right_map(&[]);
    assert_eq!(m.get("anything"), None);
    assert_eq!(m.rights_of("anything").bits(), 0);
}

#[test]
fn folded_rights_are_truncated() {
    let v = vec![FileRights::new("f".to_string(), 0xf000_0000 | READ)];
    let m = FileRights::compute_right_map(&v);
    assert_eq!(m.rights_of("f").bits(), READ as u64);
}

#[test]
fn rights_map_insert_replaces() {
    let mut m = RightsMap::new();
    m.insert("p".to_string(), Rights::from_bits_truncate(1));
    m.insert("q".to_string(), Rights::from_bits_truncate(4));
    m.insert("p".to_string(), Rights::from_bits_truncate(8));
    assert_eq!(m.rights_of("p").bits(), 8);
    assert_eq!(m.rights_of("q").bits(), 4);
}
