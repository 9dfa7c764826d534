use easychangedirectory::app::Action;
use easychangedirectory::app::App;
use easychangedirectory::app::AppMode;
use easychangedirectory::config::Config;
use easychangedirectory::item::ChildSource;
use easychangedirectory::item::Item;
use easychangedirectory::item::ItemInfo;
use easychangedirectory::item::ItemPath;
use easychangedirectory::item::items_from_lines;
use easychangedirectory::paths::generate_parent_path;

fn dir(path: &str) -> ItemInfo {
    ItemInfo { item: Item::Path(ItemPath::Dir(path.to_string())), index: None }
}

fn file(path: &str) -> ItemInfo {
    ItemInfo { item: Item::Path(ItemPath::File(path.to_string())), index: None }
}

fn config_off() -> Config {
    Config::new(None, None, None, None, None)
}

fn config_view() -> Config {
    Config::new(None, None, None, Some(1), None)
}

#[test]
fn test_app_mode() {
    assert_eq!(AppMode::Normal, AppMode::Normal);
    assert_ne!(AppMode::Normal, AppMode::Search);
}

#[test]
fn test_generate_parent_path() {
    let parent = generate_parent_path("/home/user/documents");
    assert_eq!(parent, String::from("/home/user"));
}

#[test]
fn test_generate_parent_path_root() {
    let parent = generate_parent_path("/");
    assert_eq!(parent, String::from(""));
}

#[test]
fn test_init_creates_directory() {
    // Log initialization touches the real home directory; it stays with the
    // binary around the library and is not exercised here.
}

#[test]
fn test_action_variants_differ() {
    assert_ne!(Action::Change("/a".to_string()), Action::Keep("/a".to_string()));
    assert_eq!(Action::Change("/a".to_string()), Action::Change("/a".to_string()));
}

#[test]
fn test_config_flags() {
    let c = Config::new(Some(1), Some(0), Some(1), None, Some(2));
    assert!(c.is_pwd());
    assert!(!c.is_set_bg());
    assert!(!c.is_view_file_contents());
    assert!(!c.is_log());
    let items = vec![dir("/d")];
    assert!(c.is_show_index(&items));
    let search_items = vec![ItemInfo { item: Item::Search("q".to_string()), index: Some(0) }];
    assert!(!c.is_show_index(&search_items));
    assert!(!c.is_show_index(&Vec::new()));
    assert!(!config_off().is_show_index(&items));
}

#[test]
fn test_generate_index_finds_first_match_or_zero() {
    let items = vec![dir("/x"), dir("/y"), dir("/z")];
    assert_eq!(App::generate_index(&items, &"/y".to_string()), 1);
    assert_eq!(App::generate_index(&items, &"/z".to_string()), 2);
    assert_eq!(App::generate_index(&items, &"/missing".to_string()), 0);
}

#[test]
fn test_startup_recovers_ancestor_selection() {
    let items = vec![dir("/home/user/docs")];
    let parent_items = vec![dir("/home/other"), dir("/home/user")];
    let grandparent_items = vec![dir("/home"), dir("/tmp")];
    let app = App::new(
        "/home/user".to_string(),
        items,
        parent_items,
        grandparent_items,
        vec![dir("/home/user/docs/deep")],
        config_off(),
    );
    assert_eq!(app.generate_wd_str(), "/home/user");
    // The parent pane highlights the entry the working directory came from.
    assert_eq!(app.get_parent_selection(), Some(1));
    // The grandparent pane highlights the parent path.
    assert_eq!(app.get_grandparent_selection(), Some(0));
    assert_eq!(app.get_current_selection(), None);
    assert_eq!(app.judge_mode(), AppMode::Normal);
}

#[test]
fn test_move_page_down_from_zero_lands_on_four() {
    let items: Vec<ItemInfo> = (0..10).map(|i| dir(&format!("/d/{i}"))).collect();
    let mut app = App::new(
        "/d".to_string(),
        items,
        vec![dir("/d")],
        Vec::new(),
        Vec::new(),
        config_off(),
    );
    app.move_page_down();
    assert_eq!(app.get_current_selection(), Some(4));
    app.move_page_down();
    assert_eq!(app.get_current_selection(), Some(8));
    // From index 8 near the end the jump clamps to 9, not 12.
    app.move_page_down();
    assert_eq!(app.get_current_selection(), Some(9));
    app.move_page_up();
    assert_eq!(app.get_current_selection(), Some(5));
    app.move_next();
    assert_eq!(app.get_current_selection(), Some(6));
    app.move_previous();
    assert_eq!(app.get_current_selection(), Some(5));
    app.move_end();
    assert_eq!(app.get_current_selection(), Some(9));
    // Cyclic: forward from the last record wraps to the first.
    app.move_next();
    assert_eq!(app.get_current_selection(), Some(0));
    app.move_previous();
    assert_eq!(app.get_current_selection(), Some(9));
}

#[test]
fn test_move_home_is_idempotent() {
    let items: Vec<ItemInfo> = (0..5).map(|i| dir(&format!("/d/{i}"))).collect();
    let mut app = App::new(
        "/d".to_string(),
        items,
        vec![dir("/d")],
        Vec::new(),
        Vec::new(),
        config_off(),
    );
    app.move_end();
    app.move_home();
    let once_selection = app.get_current_selection();
    let once_items = app.get_items();
    app.move_home();
    assert_eq!(app.get_current_selection(), once_selection);
    assert_eq!(app.get_items(), once_items);
    assert_eq!(once_selection, Some(0));
}

#[test]
fn test_move_parent_at_root_is_no_op() {
    let mut app = App::new(
        "/".to_string(),
        vec![dir("/bin"), dir("/etc")],
        Vec::new(),
        Vec::new(),
        Vec::new(),
        config_off(),
    );
    assert!(app.ascend_listing_path().is_none());
    let wd_before = app.generate_wd_str();
    let items_before = app.get_items();
    let parent_before = app.get_parent_items();
    app.move_parent(Vec::new());
    assert_eq!(app.generate_wd_str(), wd_before);
    assert_eq!(app.get_items(), items_before);
    assert_eq!(app.get_parent_items(), parent_before);
}

#[test]
fn test_move_child_then_parent_round_trip() {
    // A fixture tree of depth three: /a holds b and x.txt, /a/b holds c.
    let items = vec![dir("/a/b"), file("/a/x.txt")];
    let parent_items = vec![dir("/a")];
    let child_items = vec![dir("/a/b/c")];
    let mut app = App::new(
        "/a".to_string(),
        items,
        parent_items,
        Vec::new(),
        child_items,
        config_off(),
    );
    app.move_next();
    assert_eq!(app.get_current_selection(), Some(0));
    let wd_before = app.generate_wd_str();
    let items_before = app.get_items();
    let selection_before = app.get_current_selection();

    app.move_child().unwrap();
    assert_eq!(app.generate_wd_str(), "/a/b");
    assert_eq!(app.get_items().len(), 1);
    // Re-materialize the preview, as the event loop does after each step.
    match app.preview_source() {
        ChildSource::ListDir(p) => assert_eq!(p, "/a/b/c"),
        other => panic!("unexpected preview source: {:?}", other),
    }
    app.update_child_items(Vec::new());

    let listing_path = app.ascend_listing_path().expect("not at the root");
    assert_eq!(listing_path, "");
    app.move_parent(Vec::new());

    assert_eq!(app.generate_wd_str(), wd_before);
    assert_eq!(app.get_items(), items_before);
    assert_eq!(app.get_current_selection(), selection_before);
}

#[test]
fn test_search_filtering_and_restore() {
    let items = vec![file("/d/apple.txt"), file("/d/Banana"), file("/d/apricot")];
    let mut app = App::new(
        "/d".to_string(),
        items,
        vec![dir("/d")],
        Vec::new(),
        Vec::new(),
        config_off(),
    );
    app.update_search_query("ap".to_string());
    assert_eq!(app.judge_mode(), AppMode::Search);
    let filtered = app.get_search_list();
    assert_eq!(filtered.len(), 2);
    assert_eq!(filtered[0].item, Item::Path(ItemPath::File("/d/apple.txt".to_string())));
    assert_eq!(filtered[1].item, Item::Path(ItemPath::File("/d/apricot".to_string())));
    // Each filtered record maps back to its unfiltered position.
    assert_eq!(filtered[0].index, Some(0));
    assert_eq!(filtered[1].index, Some(2));
    assert_eq!(app.get_search_selection(), Some(0));

    app.move_next();
    assert_eq!(app.get_search_selection(), Some(1));

    app.update_search_query(String::new());
    assert_eq!(app.judge_mode(), AppMode::Normal);
    assert_eq!(app.get_search_list().len(), 0);
    // Clearing the query restores the Normal-mode cursor to the original
    // position of the record that was selected in the filtered list.
    assert_eq!(app.get_current_selection(), Some(2));
}

#[test]
fn test_search_no_match_gives_empty_list() {
    let items = vec![file("/d/apple.txt")];
    let mut app = App::new(
        "/d".to_string(),
        items,
        vec![dir("/d")],
        Vec::new(),
        Vec::new(),
        config_off(),
    );
    app.update_search_query("zzz".to_string());
    assert_eq!(app.get_search_list().len(), 0);
    assert_eq!(app.get_search_selection(), None);
    // With an empty authoritative list the preview degrades to empty.
    assert_eq!(app.preview_source(), ChildSource::Placeholder);
    app.update_child_items(vec![dir("/ignored")]);
    assert_eq!(app.get_child_items().len(), 0);
}

#[test]
fn test_content_view_scenario() {
    // A directory holding one subdirectory "sub" with a file "a.txt" of two
    // lines; descending twice with content preview enabled browses the file.
    let items = vec![dir("/top/sub")];
    let sub_listing = vec![file("/top/sub/a.txt")];
    let mut app = App::new(
        "/top".to_string(),
        items,
        vec![dir("/top")],
        Vec::new(),
        sub_listing,
        config_view(),
    );
    app.move_child().unwrap();
    assert_eq!(app.generate_wd_str(), "/top/sub");
    match app.preview_source() {
        ChildSource::ReadFile(p) => assert_eq!(p, "/top/sub/a.txt"),
        other => panic!("unexpected preview source: {:?}", other),
    }
    app.update_child_items(items_from_lines(vec!["line1".to_string(), "line2".to_string()]));

    app.move_child().unwrap();
    assert_eq!(app.generate_wd_str(), "/top/sub/a.txt");
    let current = app.get_items();
    assert_eq!(current.len(), 2);
    assert_eq!(current[0].item, Item::Content("line1".to_string()));
    assert_eq!(current[1].item, Item::Content("line2".to_string()));
    assert_eq!(current[0].index, Some(0));
    assert_eq!(current[1].index, Some(1));
    assert_eq!(app.get_current_selection(), Some(0));
    let preview = app.get_child_items();
    assert_eq!(preview.len(), 1);
    assert_eq!(preview[0].item, Item::Empty);

    // Ascending out of content view drops the stale line cursor.
    app.move_parent(vec![dir("/top")]);
    assert_eq!(app.generate_wd_str(), "/top/sub");
    assert_eq!(app.get_child_selection(), None);
    assert_eq!(app.get_child_items().len(), 2);
}

#[test]
fn test_move_child_without_preview_is_no_op() {
    // A file selected while content preview is disabled does not descend.
    let items = vec![file("/d/a.txt")];
    let mut app = App::new(
        "/d".to_string(),
        items,
        vec![dir("/d")],
        Vec::new(),
        vec![ItemInfo { item: Item::Empty, index: None }],
        config_off(),
    );
    app.move_child().unwrap();
    assert_eq!(app.generate_wd_str(), "/d");
    assert_eq!(app.get_items().len(), 1);
}

#[test]
fn test_get_selected_filepath() {
    let items = vec![file("/d/a.txt")];
    let mut app = App::new(
        "/d".to_string(),
        items,
        vec![dir("/d")],
        Vec::new(),
        Vec::new(),
        config_off(),
    );
    assert_eq!(app.get_selected_filepath().unwrap(), "/d/a.txt");
    app.update_search_query("nothing-matches".to_string());
    assert!(app.get_selected_filepath().is_err());
}
