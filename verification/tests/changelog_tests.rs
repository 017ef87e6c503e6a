use dsh_desktop::changelog::entries;

fn numbers(v: &str) -> (u32, u32, u32) {
    let p: Vec<u32> = v.split('.').map(|x| x.parse().unwrap()).collect();
    (p[0], p[1], p[2])
}

#[test]
fn changelog_is_newest_first() {
    let e = entries();
    assert_eq!(e.len(), 8);
    assert_eq!(e[0].version, "0.2.2");
    assert_eq!(e[7].version, "0.1.1");
    for w in e.windows(2) {
        assert!(numbers(&w[0].version) > numbers(&w[1].version));
    }
}

#[test]
fn every_entry_is_titled_and_non_empty() {
    for e in entries() {
        assert_eq!(e.title, e.version);
        assert!(!e.changes.is_empty());
    }
    assert_eq!(entries()[0].changes.len(), 7);
    assert!(entries()[7].changes[0].starts_with("桌面启动器"));
}
