use hotcell::Module;

#[test]
fn load_file() {
    let mut foo = Module::new("test/foo.txt".to_string());
    foo.bootstrap("foo\n".as_bytes().to_vec());

    assert_eq!(foo.load().as_slice(), "foo\n".as_bytes());
}

#[test]
fn first_load_returns_bootstrap_bytes() {
    let mut m = Module::new("a.txt".to_string());
    assert!(!m.is_started());
    m.bootstrap(vec![1u8, 2, 3]);
    assert!(m.is_started());
    assert_eq!(m.load().as_slice(), &[1u8, 2, 3]);
}

#[test]
fn empty_file_loads_empty() {
    let mut m = Module::new("empty.txt".to_string());
    m.bootstrap(Vec::new());
    assert_eq!(m.load().as_slice(), &[] as &[u8]);
}

#[test]
fn update_becomes_visible_after_promotion() {
    let mut m = Module::new("b.txt".to_string());
    m.bootstrap(b"old".to_vec());
    assert_eq!(m.load().as_slice(), b"old");

    m.on_change_event(Some(b"new".to_vec()));
    assert_eq!(m.load().as_slice(), b"new");
    assert_eq!(m.load().as_slice(), b"new");
}

#[test]
fn coalescing_exposes_only_the_newest_deposit() {
    let mut m = Module::new("c.txt".to_string());
    m.bootstrap(b"base".to_vec());

    m.deposit_pending(b"first".to_vec());
    m.deposit_pending(b"second".to_vec());
    assert_eq!(m.load().as_slice(), b"second");
    assert_eq!(m.load().as_slice(), b"second");
}

#[test]
fn promotion_with_empty_slot_changes_nothing() {
    let mut m = Module::new("d.txt".to_string());
    m.bootstrap(b"kept".to_vec());
    m.try_promote();
    m.try_promote();
    assert_eq!(m.load().as_slice(), b"kept");
}

#[test]
fn failed_reread_keeps_last_known_good_content() {
    let mut m = Module::new("e.txt".to_string());
    m.bootstrap(b"good".to_vec());

    m.on_change_event(None);
    assert_eq!(m.load().as_slice(), b"good");

    m.on_change_event(Some(b"better".to_vec()));
    assert_eq!(m.load().as_slice(), b"better");
}

#[test]
fn failed_reread_does_not_clear_a_waiting_deposit() {
    let mut m = Module::new("f.txt".to_string());
    m.bootstrap(b"good".to_vec());

    m.deposit_pending(b"waiting".to_vec());
    m.on_change_event(None);
    assert_eq!(m.load().as_slice(), b"waiting");
}

#[test]
fn read_current_does_not_promote() {
    let mut m = Module::new("g.txt".to_string());
    m.bootstrap(b"shown".to_vec());
    m.deposit_pending(b"held back".to_vec());
    assert_eq!(m.read_current().as_slice(), b"shown");
    assert_eq!(m.load().as_slice(), b"held back");
}

#[test]
fn cells_watching_different_paths_are_isolated() {
    let mut left = Module::new("left.txt".to_string());
    let mut right = Module::new("right.txt".to_string());
    left.bootstrap(b"left".to_vec());
    right.bootstrap(b"right".to_vec());

    left.on_change_event(Some(b"left changed".to_vec()));
    assert_eq!(left.load().as_slice(), b"left changed");
    assert_eq!(right.load().as_slice(), b"right");
}
