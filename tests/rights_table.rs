use policy_utils::{FileRights, Identity, Pipeline, Principal, Program, Rights, RightsMap, RightsTable};

const READ: u32 = 1 << 1;
const WRITE: u32 = 1 << 6;

fn read() -> Rights {
    Rights::from_bits_truncate(READ as u64)
}

#[test]
fn program_and_pipeline_of_same_name_kept_apart() {
    let program = Program::new("p".to_string(), 0, vec![FileRights::new("data.txt".to_string(), READ | WRITE)]);
    let pipeline: Pipeline<usize> =
        Pipeline::new_unparsed("p".to_string(), 1, "p".to_string(), vec![FileRights::new("data.txt".to_string(), READ)]);
    let mut table = RightsTable::new();
    table.add_program(&program);
    table.add_pipeline(&pipeline);
    let as_program = table.rights_of(&Principal::Program("p".to_string()), "data.txt");
    let as_pipeline = table.rights_of(&Principal::Pipeline("p".to_string()), "data.txt");
    assert_eq!(as_program.bits(), (READ | WRITE) as u64);
    assert_eq!(as_pipeline.bits(), READ as u64);
    assert!(!table.is_allowed(
        &Principal::Pipeline("p".to_string()),
        "data.txt",
        &Rights::from_bits_truncate(WRITE as u64)
    ));
    assert!(table.is_allowed(
        &Principal::Program("p".to_string()),
        "data.txt",
        &Rights::from_bits_truncate(WRITE as u64)
    ));
}

#[test]
fn nocap_and_absent_principals_hold_nothing() {
    let mut table = RightsTable::new();
    let mut m = RightsMap::new();
    m.insert("f".to_string(), read());
    table.insert(Principal::NoCap, m);
    assert_eq!(table.rights_of(&Principal::NoCap, "f").bits(), 0);
    assert!(!table.is_allowed(&Principal::NoCap, "f", &read()));
    assert_eq!(table.rights_of(&Principal::Program("ghost".to_string()), "f").bits(), 0);
    assert!(!table.is_allowed(&Principal::Program("ghost".to_string()), "f", &read()));
    assert!(!table.is_allowed(&Principal::Participant(3), "any/path", &Rights::from_bits_truncate(1)));
}

#[test]
fn unknown_path_holds_nothing() {
    let program = Program::new("q".to_string(), 0, vec![FileRights::new("a".to_string(), READ)]);
    let mut table = RightsTable::new();
    table.add_program(&program);
    assert_eq!(table.rights_of(&Principal::Program("q".to_string()), "b").bits(), 0);
}

#[test]
fn same_principal_overwrites() {
    let first = Program::new("p".to_string(), 0, vec![FileRights::new("a".to_string(), READ)]);
    let second = Program::new("p".to_string(), 1, vec![FileRights::new("b".to_string(), WRITE)]);
    let mut table = RightsTable::new();
    table.add_program(&first);
    table.add_program(&second);
    let p = Principal::Program("p".to_string());
    assert_eq!(table.rights_of(&p, "a").bits(), 0);
    assert_eq!(table.rights_of(&p, "b").bits(), WRITE as u64);
}

#[test]
fn participants_keyed_by_id() {
    let id = Identity::new("cert".to_string(), 5u32, vec![FileRights::new("in".to_string(), WRITE)]);
    let mut table = RightsTable::new();
    table.add_participant(&id);
    assert_eq!(table.rights_of(&Principal::Participant(5), "in").bits(), WRITE as u64);
    assert_eq!(table.rights_of(&Principal::Participant(6), "in").bits(), 0);
}

#[test]
fn super_user_holds_every_right_without_entry() {
    let table = RightsTable::new();
    let all = table.rights_of(&Principal::InternalSuperUser, "any/file");
    assert_eq!(all.bits(), 0x0fff_ffff);
    assert!(table.is_allowed(&Principal::InternalSuperUser, "x", &Rights::from_bits_truncate((READ | WRITE) as u64)));
}
