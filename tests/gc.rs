use std::collections::HashMap;

use branchless::commit_id::CommitId;
use branchless::error::GcError;
use branchless::pin::{pin_request, pin_request_for, PinRequest, PIN_MESSAGE};
use branchless::refname::{gc_ref_name, is_gc_ref, RESERVED_PREFIX};
use branchless::sweep::{find_dangling_references, is_visible, sweep_plan, RefEntry};

fn id(bytes: &[u8]) -> CommitId {
    CommitId { bytes: bytes.to_vec() }
}

fn entry(name: &str, target: Option<&[u8]>) -> RefEntry {
    RefEntry { name: Some(name.to_string()), target: target.map(id) }
}

fn write(table: &mut HashMap<String, Vec<u8>>, req: &PinRequest) {
    table.insert(req.name.clone(), req.target.bytes.clone());
}

#[test]
fn hex_form_of_commit_ids() {
    assert_eq!(id(&[0x00, 0x0f, 0xa1, 0xff]).to_hex(), "000fa1ff");
    assert_eq!(id(&[]).to_hex(), "");
    let full: Vec<u8> = (0u8..20).collect();
    assert_eq!(
        CommitId { bytes: full }.to_hex(),
        "000102030405060708090a0b0c0d0e0f10111213"
    );
}

#[test]
fn commit_id_equality() {
    assert!(id(&[0xa1, 0xb2]).same_as(&id(&[0xa1, 0xb2])));
    assert!(!id(&[0xa1, 0xb2]).same_as(&id(&[0xa1, 0xb3])));
    assert!(!id(&[0xa1]).same_as(&id(&[0xa1, 0xb2])));
}

#[test]
fn reserved_namespace_predicate() {
    assert_eq!(RESERVED_PREFIX, "refs/branchless/");
    assert!(is_gc_ref("refs/branchless/a1b2"));
    assert!(is_gc_ref("refs/branchless/"));
    assert!(!is_gc_ref("refs/heads/feature"));
    assert!(!is_gc_ref("refs/branchless"));
    assert!(!is_gc_ref("refs/Branchless/a1b2"));
    assert!(!is_gc_ref("x/refs/branchless/a1b2"));
    assert!(!is_gc_ref(""));
}

#[test]
fn reserved_name_of_a_commit() {
    assert_eq!(gc_ref_name(&id(&[0xa1, 0xb2])), "refs/branchless/a1b2");
    assert!(is_gc_ref(&gc_ref_name(&id(&[0x01]))));
}

#[test]
fn pin_creates_reserved_reference() {
    let req = pin_request(&id(&[0xa1, 0xb2])).unwrap();
    assert_eq!(req.name, "refs/branchless/a1b2");
    assert_eq!(req.target.bytes, vec![0xa1, 0xb2]);
    assert_eq!(req.message, PIN_MESSAGE);
    assert_eq!(req.message, "branchless: marking commit as reachable");
}

#[test]
fn pin_full_length_commit() {
    let bytes: Vec<u8> = (0u8..20).map(|b| b.wrapping_mul(13)).collect();
    let req = pin_request(&CommitId { bytes: bytes.clone() }).unwrap();
    assert_eq!(req.name, format!("refs/branchless/{}", CommitId { bytes: bytes.clone() }.to_hex()));
    assert_eq!(req.name.len(), 16 + 40);
    assert_eq!(req.target.bytes, bytes);
}

#[test]
fn pin_twice_leaves_one_reference() {
    let mut table: HashMap<String, Vec<u8>> = HashMap::new();
    table.insert("refs/heads/main".to_string(), vec![0x01]);
    let c = id(&[0xa1, 0xb2]);
    write(&mut table, &pin_request(&c).unwrap());
    let once = table.clone();
    write(&mut table, &pin_request(&c).unwrap());
    assert_eq!(table, once);
    assert_eq!(table.len(), 2);
    assert_eq!(table["refs/branchless/a1b2"], vec![0xa1, 0xb2]);
    assert_eq!(table["refs/heads/main"], vec![0x01]);
}

#[test]
fn pin_refuses_invalid_name() {
    let c = id(&[0xa1]);
    match pin_request_for(&c, "refs/branchless/a1".to_string(), false) {
        Err(GcError::InvalidRefName { name }) => assert_eq!(name, "refs/branchless/a1"),
        other => panic!("unexpected: {:?}", other),
    }
    let req = pin_request_for(&c, "refs/branchless/a1".to_string(), true).unwrap();
    assert_eq!(req.name, "refs/branchless/a1");
    assert_eq!(req.target.bytes, vec![0xa1]);
}

#[test]
fn visibility_lookup() {
    let visible = vec![id(&[0xa1]), id(&[0xc3])];
    assert!(is_visible(&visible, &id(&[0xc3])));
    assert!(!is_visible(&visible, &id(&[0xb2])));
    assert!(!is_visible(&Vec::new(), &id(&[0xa1])));
}

#[test]
fn sweep_deletes_only_invisible_reserved() {
    let refs = vec![
        entry("refs/branchless/a1", Some(&[0xa1])),
        entry("refs/branchless/b2", Some(&[0xb2])),
        entry("refs/branchless/c3", Some(&[0xc3])),
    ];
    let visible = vec![id(&[0xa1]), id(&[0xc3])];
    assert_eq!(find_dangling_references(&refs, &visible), vec![1]);
}

#[test]
fn sweep_leaves_branches_alone() {
    let refs = vec![
        entry("refs/heads/feature", Some(&[0xb2])),
        entry("refs/branchless/b2", Some(&[0xb2])),
    ];
    let visible = vec![id(&[0xa1])];
    assert_eq!(find_dangling_references(&refs, &visible), vec![1]);
}

#[test]
fn sweep_skips_unresolvable_references() {
    let refs = vec![
        entry("refs/branchless/a1", None),
        RefEntry { name: None, target: Some(id(&[0xa1])) },
        RefEntry { name: None, target: None },
        entry("refs/branchless/b2", Some(&[0xb2])),
        entry("refs/tags/blob", None),
    ];
    assert_eq!(find_dangling_references(&refs, &Vec::new()), vec![3]);
}

#[test]
fn sweep_with_everything_visible_deletes_nothing() {
    let refs = vec![
        entry("refs/branchless/a1", Some(&[0xa1])),
        entry("refs/branchless/b2", Some(&[0xb2])),
    ];
    let visible = vec![id(&[0xb2]), id(&[0xa1])];
    assert_eq!(find_dangling_references(&refs, &visible), Vec::<usize>::new());
    assert_eq!(find_dangling_references(&Vec::new(), &visible), Vec::<usize>::new());
}

#[test]
fn sweep_with_nothing_visible_deletes_every_reserved() {
    let refs = vec![
        entry("refs/branchless/a1", Some(&[0xa1])),
        entry("refs/heads/main", Some(&[0xa1])),
        entry("refs/branchless/b2", Some(&[0xb2])),
        entry("HEAD", Some(&[0xb2])),
    ];
    assert_eq!(find_dangling_references(&refs, &Vec::new()), vec![0, 2]);
}

#[test]
fn sweep_plan_with_visible_set() {
    let refs = vec![
        entry("refs/branchless/a1", Some(&[0xa1])),
        entry("refs/branchless/b2", Some(&[0xb2])),
        entry("refs/branchless/c3", Some(&[0xc3])),
    ];
    let plan = sweep_plan(Ok(vec![id(&[0xa1]), id(&[0xc3])]), &refs).unwrap();
    assert_eq!(plan, vec![1]);
}

#[test]
fn sweep_fails_closed_when_visibility_fails() {
    let refs = vec![
        entry("refs/branchless/a1", Some(&[0xa1])),
        entry("refs/branchless/b2", Some(&[0xb2])),
    ];
    match sweep_plan(Err("corrupt event log".to_string()), &refs) {
        Err(GcError::Visibility { message }) => assert_eq!(message, "corrupt event log"),
        other => panic!("unexpected: {:?}", other),
    }
}
