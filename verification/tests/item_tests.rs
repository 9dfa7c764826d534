use easychangedirectory::item::ChildSource;
use easychangedirectory::item::Item;
use easychangedirectory::item::ItemInfo;
use easychangedirectory::item::ItemPath;
use easychangedirectory::item::ItemSymlink;
use easychangedirectory::item::PathKind;
use easychangedirectory::item::RawEntry;
use easychangedirectory::item::child_source;
use easychangedirectory::item::classify_path;
use easychangedirectory::item::items_from_lines;
use easychangedirectory::item::make_items;
use easychangedirectory::item::source_for_path;
use easychangedirectory::order::read_items;

#[test]
fn test_item() {
    let item = ItemInfo { item: Item::create_dir("test"), index: None };
    assert!(item.is_dir());
    assert!(!item.is_file());
    assert!(!item.is_symlink());
    assert!(!item.can_read());
    assert_eq!(item.get_path(), Some(String::from("test")));
    assert_eq!(item.generate_filename(), Some("test".into()));
    let item = ItemInfo { item: Item::Content("test".into()), index: None };
    assert!(!item.can_read());
    assert!(!item.is_symlink());
    assert_eq!(item.get_path(), None);
}

#[test]
fn test_make_items_empty_path() {
    let items = make_items(Vec::new());
    assert_eq!(items.len(), 1);
    assert_eq!(items[0].item, Item::new());
}

#[test]
fn test_make_items_keeps_nonempty() {
    let one = ItemInfo { item: Item::create_dir("/tmp"), index: None };
    let items = make_items(vec![one.clone()]);
    assert_eq!(items.len(), 1);
    assert_eq!(items[0], one);
}

#[test]
fn test_generate_filename_takes_last_component() {
    let item = ItemInfo { item: Item::create_dir("/top/sub/leaf.txt"), index: None };
    assert_eq!(item.generate_filename(), Some("leaf.txt".to_string()));
}

#[test]
fn test_classify_path_kinds() {
    let d = classify_path(RawEntry { path: "/d".into(), kind: PathKind::Dir });
    assert!(d.is_dir() && !d.is_file() && !d.is_symlink());
    let f = classify_path(RawEntry { path: "/f".into(), kind: PathKind::File });
    assert!(f.is_file() && !f.is_dir() && f.can_read());
    let sd = classify_path(RawEntry { path: "/sd".into(), kind: PathKind::SymlinkDir });
    assert!(sd.is_dir() && sd.is_symlink());
    assert_eq!(sd.item, Item::Path(ItemPath::Symlink(ItemSymlink::Dir("/sd".into()))));
    let sf = classify_path(RawEntry { path: "/sf".into(), kind: PathKind::SymlinkFile });
    assert!(sf.is_file() && sf.is_symlink());
    let u = classify_path(RawEntry { path: "/u".into(), kind: PathKind::Unknown });
    assert!(!u.is_dir() && !u.is_file() && !u.is_symlink());
    assert_eq!(u.get_path(), Some("/u".to_string()));
}

#[test]
fn test_items_from_lines_numbers_lines() {
    let items = items_from_lines(vec!["alpha".to_string(), "beta".to_string()]);
    assert_eq!(items.len(), 2);
    assert_eq!(items[0].item, Item::Content("alpha".to_string()));
    assert_eq!(items[0].index, Some(0));
    assert_eq!(items[1].item, Item::Content("beta".to_string()));
    assert_eq!(items[1].index, Some(1));
}

#[test]
fn test_items_from_lines_empty_file() {
    let items = items_from_lines(Vec::new());
    assert_eq!(items.len(), 0);
}

#[test]
fn test_child_source_decisions() {
    let d = ItemInfo { item: Item::Path(ItemPath::Dir("/d".into())), index: None };
    assert_eq!(child_source(&d, false), ChildSource::ListDir("/d".into()));
    let f = ItemInfo { item: Item::Path(ItemPath::File("/f".into())), index: None };
    assert_eq!(child_source(&f, true), ChildSource::ReadFile("/f".into()));
    assert_eq!(child_source(&f, false), ChildSource::Placeholder);
    let s = ItemInfo {
        item: Item::Path(ItemPath::Symlink(ItemSymlink::File("/s".into()))),
        index: None,
    };
    assert_eq!(child_source(&s, true), ChildSource::ResolveLink("/s".into()));
    let e = ItemInfo { item: Item::Empty, index: None };
    assert_eq!(child_source(&e, true), ChildSource::Placeholder);
    let c = ItemInfo { item: Item::Content("x".into()), index: Some(0) };
    assert_eq!(child_source(&c, true), ChildSource::Placeholder);
}

#[test]
fn test_source_for_resolved_target() {
    assert_eq!(
        source_for_path("/t".to_string(), PathKind::Dir, false),
        ChildSource::ListDir("/t".to_string())
    );
    assert_eq!(
        source_for_path("/t".to_string(), PathKind::File, true),
        ChildSource::ReadFile("/t".to_string())
    );
    assert_eq!(
        source_for_path("/t".to_string(), PathKind::File, false),
        ChildSource::Placeholder
    );
    assert_eq!(
        source_for_path("/t".to_string(), PathKind::Unknown, true),
        ChildSource::Placeholder
    );
}

#[test]
fn test_read_items_sorts_by_path() {
    let raw = vec![
        RawEntry { path: "/d/c.txt".into(), kind: PathKind::File },
        RawEntry { path: "/d/a".into(), kind: PathKind::Dir },
        RawEntry { path: "/d/b".into(), kind: PathKind::Unknown },
    ];
    let items = read_items(raw);
    assert_eq!(items.len(), 3);
    assert_eq!(items[0].get_path(), Some("/d/a".to_string()));
    assert_eq!(items[1].get_path(), Some("/d/b".to_string()));
    assert_eq!(items[2].get_path(), Some("/d/c.txt".to_string()));
    assert!(items[0].is_dir());
    assert!(items[2].is_file());
}
