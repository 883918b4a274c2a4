use riscv_regs::error::Error;
use riscv_regs::peripheral::aplic::{Aplic, SourceModes};
use riscv_regs::peripheral::hierarchy::Forest;

fn platform() -> (Forest, Vec<Aplic>) {
    // Domain 0 is the root, with children 1 and 2; domain 3 is the child
    // of domain 1; domain 4 is a second root.
    let mut forest = Forest::new();
    assert_eq!(forest.add_root(), 0);
    assert_eq!(forest.add_child(0), Ok(1));
    assert_eq!(forest.add_child(0), Ok(2));
    assert_eq!(forest.add_child(1), Ok(3));
    assert_eq!(forest.add_root(), 4);
    let domains = vec![
        Aplic::new(),
        Aplic::new(),
        Aplic::new(),
        Aplic::new(),
        Aplic::new(),
    ];
    (forest, domains)
}

#[test]
fn forest_shape() {
    let (forest, _) = platform();
    assert_eq!(forest.len(), 5);
    assert_eq!(forest.parent(0), None);
    assert_eq!(forest.parent(1), Some(0));
    assert_eq!(forest.parent(2), Some(0));
    assert_eq!(forest.parent(3), Some(1));
    assert_eq!(forest.parent(4), None);
    assert_eq!(forest.parent(5), None);
    assert_eq!(forest.child(0, 0), Some(1));
    assert_eq!(forest.child(0, 1), Some(2));
    assert_eq!(forest.child(0, 2), None);
    assert_eq!(forest.child(1, 0), Some(3));
    assert_eq!(forest.child(3, 0), None);
    assert_eq!(forest.child(9, 0), None);
}

#[test]
fn add_child_needs_a_parent() {
    let mut forest = Forest::new();
    assert_eq!(forest.add_child(0), Err(Error::OutOfRange));
    assert_eq!(forest.len(), 0);
    assert_eq!(forest.add_root(), 0);
    assert_eq!(forest.add_child(1), Err(Error::OutOfRange));
    assert_eq!(forest.add_child(0), Ok(1));
}

#[test]
fn the_root_owns_every_source_at_first() {
    let (forest, domains) = platform();
    for id in [1u32, 77, 1023] {
        assert_eq!(forest.owner(&domains, 0, id), Ok(Some(0)));
        assert_eq!(forest.owner(&domains, 4, id), Ok(Some(4)));
    }
}

#[test]
fn delegation_moves_ownership_down() {
    let (forest, mut domains) = platform();
    domains[0].sourcecfg_delegate(9, 0).unwrap();
    assert_eq!(forest.owner(&domains, 0, 9), Ok(Some(1)));
    domains[1].sourcecfg_delegate(9, 0).unwrap();
    assert_eq!(forest.owner(&domains, 0, 9), Ok(Some(3)));
    assert_eq!(forest.owner(&domains, 1, 9), Ok(Some(3)));
    // Other sources stay where they were.
    assert_eq!(forest.owner(&domains, 0, 10), Ok(Some(0)));
    // The second child.
    domains[0].sourcecfg_delegate(10, 1).unwrap();
    assert_eq!(forest.owner(&domains, 0, 10), Ok(Some(2)));
    // What the parent keeps for a delegated source does not matter.
    domains[0].unmask(9).unwrap();
    domains[0].setipnum(9).unwrap();
    assert_eq!(forest.owner(&domains, 0, 9), Ok(Some(3)));
    // Taking the source back: the last write wins.
    domains[0].set_sourcecfg(9, SourceModes::LevelHigh).unwrap();
    assert_eq!(forest.owner(&domains, 0, 9), Ok(Some(0)));
}

#[test]
fn delegation_to_a_missing_child_owns_nothing() {
    let (forest, mut domains) = platform();
    domains[0].sourcecfg_delegate(5, 2).unwrap();
    assert_eq!(forest.owner(&domains, 0, 5), Ok(None));
    domains[3].sourcecfg_delegate(6, 0).unwrap();
    assert_eq!(forest.owner(&domains, 3, 6), Ok(None));
}

#[test]
fn owner_out_of_range() {
    let (forest, domains) = platform();
    assert_eq!(forest.owner(&domains, 5, 1), Err(Error::OutOfRange));
    assert_eq!(forest.owner(&domains, 0, 0), Err(Error::OutOfRange));
    assert_eq!(forest.owner(&domains, 0, 1024), Err(Error::OutOfRange));
}
