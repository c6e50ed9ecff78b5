use etcd_session::history::{remember_path, MAX_PATH_HISTORY};

fn strings(v: &[&str]) -> Vec<String> {
    v.iter().map(|s| s.to_string()).collect()
}

#[test]
fn new_path_goes_first() {
    assert_eq!(remember_path(&vec![], &"/a".to_string()), strings(&["/a"]));
    assert_eq!(remember_path(&strings(&["/b", "/c"]), &"/a".to_string()), strings(&["/a", "/b", "/c"]));
}

#[test]
fn revisited_path_moves_to_front() {
    let h = strings(&["/b", "/a", "/c"]);
    assert_eq!(remember_path(&h, &"/a".to_string()), strings(&["/a", "/b", "/c"]));
    assert_eq!(remember_path(&strings(&["/a"]), &"/a".to_string()), strings(&["/a"]));
}

#[test]
fn history_is_capped() {
    let h: Vec<String> = (0..MAX_PATH_HISTORY).map(|i| format!("/p{i}")).collect();
    let r = remember_path(&h, &"/new".to_string());
    assert_eq!(r.len(), 20);
    assert_eq!(r[0], "/new");
    assert_eq!(r[1], "/p0");
    assert_eq!(r[19], "/p18");
    let r = remember_path(&h, &"/p19".to_string());
    assert_eq!(r.len(), 20);
    assert_eq!(r[0], "/p19");
    assert_eq!(r[19], "/p18");
}
