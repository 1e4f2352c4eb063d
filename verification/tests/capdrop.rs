use exec_uproc::privilege::setcap_proc;

#[test]
fn dropping_leaves_all_mutable_sets_empty() {
    let _snapshot = setcap_proc().expect("clearing the capability sets must succeed");
    for set in [
        caps::CapSet::Effective,
        caps::CapSet::Permitted,
        caps::CapSet::Inheritable,
    ] {
        let now = caps::read(None, set).unwrap();
        assert!(now.is_empty(), "{set:?} must be empty after the drop");
    }
}
