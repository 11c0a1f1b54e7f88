use apps_service::guards::DirRemover;

#[test]
fn dir_remover_is_armed_until_kept() {
    let guard = DirRemover::new("/data/downloading/42");
    assert_eq!(guard.finish(), Some(String::from("/data/downloading/42")));

    let mut guard = DirRemover::new("/data/downloading/42");
    guard.keep();
    assert_eq!(guard.finish(), None);
}
