use oxidio::browser::{extension_of, order_listing, BrowserEntry, FileBrowser};

fn entry(path: &str, name: &str, is_dir: bool) -> BrowserEntry {
    BrowserEntry { path: String::from(path), name: String::from(name), is_dir, is_audio: false }
}

fn listing() -> Vec<BrowserEntry> {
    order_listing(
        Some(String::from("/")),
        vec![
            entry("/m/b.mp3", "b.mp3", false),
            entry("/m/Zeta", "Zeta", true),
            entry("/m/.hidden", ".hidden", false),
            entry("/m/A.txt", "A.txt", false),
            entry("/m/alpha", "alpha", true),
        ],
    )
}

#[test]
fn listing_order_parent_dirs_files() {
    let l = listing();
    let names: Vec<&str> = l.iter().map(|e| e.name.as_str()).collect();
    assert_eq!(names, vec!["..", "alpha", "Zeta", "A.txt", "b.mp3"]);
    assert!(l[4].is_audio);
    assert!(!l[3].is_audio);
    assert_eq!(l[0].path, "/");
}

#[test]
fn filter_is_case_insensitive_and_keeps_parent() {
    let mut b = FileBrowser::new(String::from("/m"), listing());
    assert_eq!(b.len(), 5);
    b.set_filter(String::from("ALP"));
    assert_eq!(b.filter(), "ALP");
    let names: Vec<&str> = b.visible_entries().iter().map(|e| e.name.as_str()).collect();
    assert_eq!(names, vec!["..", "alpha"]);
    b.clear_filter();
    assert_eq!(b.len(), 5);
}

#[test]
fn selection_wraps_and_clamps() {
    let mut b = FileBrowser::new(String::from("/m"), listing());
    assert_eq!(b.selected_index(), 0);
    b.select_previous();
    assert_eq!(b.selected_index(), 4);
    b.select_next();
    assert_eq!(b.selected_index(), 0);
    b.select_last();
    assert_eq!(b.selected_entry().unwrap().name, "b.mp3");
    assert_eq!(b.enter_selected(), Some(String::from("/m/b.mp3")));
    b.set_filter(String::from("zeta"));
    assert_eq!(b.selected_index(), 1);
    assert_eq!(b.selected_dir(), Some(String::from("/m/Zeta")));
    assert_eq!(b.enter_selected(), None);
    b.select_first();
    assert_eq!(b.selected_index(), 0);
    b.navigate_to(String::from("/m/Zeta"), Vec::new());
    assert!(b.is_empty());
    assert_eq!(b.current_dir(), "/m/Zeta");
    assert_eq!(b.selected_entry(), None);
}

#[test]
fn extensions() {
    assert_eq!(extension_of("song.tar.flac"), "flac");
    assert_eq!(extension_of(".bashrc"), "");
    assert_eq!(extension_of("README"), "");
}
