use jot_menu::menus::{app_menu, edit_menu, file_menu, help_menu, view_menu, window_menu};
use jot_menu::node::{MenuNode, Predefined};
use jot_menu::tree::{build_menu, Platform};

fn action(id: &str, label: &str, accelerator: Option<&str>) -> MenuNode {
    MenuNode::Action {
        id: id.to_string(),
        label: label.to_string(),
        accelerator: accelerator.map(|keys| keys.to_string()),
        enabled: true,
    }
}

fn submenu(label: &str, children: Vec<MenuNode>) -> MenuNode {
    MenuNode::Submenu { label: label.to_string(), children }
}

fn expected_file() -> MenuNode {
    submenu(
        "File",
        vec![
            action("file.new", "New", Some("CmdOrCtrl+N")),
            action("file.open", "Open...", Some("CmdOrCtrl+O")),
            action("file.save", "Save", Some("CmdOrCtrl+S")),
            action("file.save_as", "Save As...", Some("CmdOrCtrl+Shift+S")),
            MenuNode::Separator,
            action("file.rename", "Rename...", Some("CmdOrCtrl+Shift+R")),
            MenuNode::Separator,
            MenuNode::Predefined(Predefined::CloseWindow),
        ],
    )
}

fn expected_edit() -> MenuNode {
    submenu(
        "Edit",
        vec![
            MenuNode::Predefined(Predefined::Undo),
            MenuNode::Predefined(Predefined::Redo),
            MenuNode::Separator,
            MenuNode::Predefined(Predefined::Cut),
            MenuNode::Predefined(Predefined::Copy),
            MenuNode::Predefined(Predefined::Paste),
            MenuNode::Separator,
            MenuNode::Predefined(Predefined::SelectAll),
        ],
    )
}

fn expected_view() -> MenuNode {
    submenu(
        "View",
        vec![
            action("view.font.serif", "Serif Font", None),
            action("view.font.sans", "Sans Font", None),
            action("view.font.mono", "Mono Font", None),
            MenuNode::Separator,
            action("view.width.narrow", "Narrow Width", None),
            action("view.width.wide", "Wide Width", None),
            MenuNode::Separator,
            action("view.zoom_in", "Zoom In", Some("CmdOrCtrl+=")),
            action("view.zoom_out", "Zoom Out", Some("CmdOrCtrl+-")),
            action("view.zoom_reset", "Actual Size", Some("CmdOrCtrl+0")),
            MenuNode::Separator,
            action("view.theme.system", "Theme: System", None),
            action("view.theme.light", "Theme: Light", None),
            action("view.theme.dark", "Theme: Dark", None),
        ],
    )
}

fn expected_window() -> MenuNode {
    submenu(
        "Window",
        vec![
            MenuNode::Predefined(Predefined::Minimize),
            MenuNode::Predefined(Predefined::Maximize),
            MenuNode::Separator,
            MenuNode::Predefined(Predefined::CloseWindow),
        ],
    )
}

fn expected_help() -> MenuNode {
    submenu("Help", vec![action("help.docs", "Writing Tips", None)])
}

fn expected_app() -> MenuNode {
    submenu(
        "Jot",
        vec![
            MenuNode::Predefined(Predefined::About),
            MenuNode::Separator,
            MenuNode::Predefined(Predefined::Hide),
            MenuNode::Predefined(Predefined::HideOthers),
            MenuNode::Predefined(Predefined::ShowAll),
            MenuNode::Separator,
            MenuNode::Predefined(Predefined::Quit),
        ],
    )
}

fn all_ids() -> Vec<String> {
    [
        "file.new",
        "file.open",
        "file.save",
        "file.save_as",
        "file.rename",
        "view.font.serif",
        "view.font.sans",
        "view.font.mono",
        "view.width.narrow",
        "view.width.wide",
        "view.zoom_in",
        "view.zoom_out",
        "view.zoom_reset",
        "view.theme.system",
        "view.theme.light",
        "view.theme.dark",
        "help.docs",
    ]
    .iter()
    .map(|id| id.to_string())
    .collect()
}

#[test]
fn file_menu_holds_its_entries() {
    assert_eq!(file_menu(), expected_file());
}

#[test]
fn edit_menu_holds_its_entries() {
    assert_eq!(edit_menu(), expected_edit());
}

#[test]
fn view_menu_holds_its_entries() {
    assert_eq!(view_menu(), expected_view());
}

#[test]
fn window_menu_holds_its_entries() {
    assert_eq!(window_menu(), expected_window());
}

#[test]
fn help_menu_holds_its_entries() {
    assert_eq!(help_menu(), expected_help());
}

#[test]
fn app_menu_holds_its_entries() {
    assert_eq!(app_menu(), expected_app());
}

#[test]
fn window_menu_bar_has_the_five_common_menus() {
    let tree = build_menu(Platform::WindowMenuBar);
    let expected =
        vec![expected_file(), expected_edit(), expected_view(), expected_window(), expected_help()];
    assert_eq!(tree.menus(), &expected);
}

#[test]
fn global_menu_bar_starts_with_the_app_menu() {
    let tree = build_menu(Platform::GlobalMenuBar);
    let expected = vec![
        expected_app(),
        expected_file(),
        expected_edit(),
        expected_view(),
        expected_window(),
        expected_help(),
    ];
    assert_eq!(tree.menus(), &expected);
}

#[test]
fn global_menu_bar_has_one_menu_more_and_it_comes_first() {
    let global = build_menu(Platform::GlobalMenuBar);
    let other = build_menu(Platform::WindowMenuBar);
    assert_eq!(global.menus().len(), 6);
    assert_eq!(other.menus().len(), 5);
    assert_eq!(global.menus().len(), other.menus().len() + 1);
    assert_eq!(global.menus()[0], expected_app());
    assert_eq!(&global.menus()[1..], &other.menus()[..]);
    assert!(!other.menus().contains(&expected_app()));
}

#[test]
fn no_quit_or_about_without_the_app_menu() {
    let tree = build_menu(Platform::WindowMenuBar);
    for menu in tree.menus() {
        match menu {
            MenuNode::Submenu { children, .. } => {
                assert!(!children.contains(&MenuNode::Predefined(Predefined::Quit)));
                assert!(!children.contains(&MenuNode::Predefined(Predefined::About)));
            }
            _ => panic!("a top-level node is not a submenu"),
        }
    }
}

#[test]
fn top_level_nodes_are_submenus() {
    for platform in [Platform::GlobalMenuBar, Platform::WindowMenuBar] {
        let tree = build_menu(platform);
        for menu in tree.menus() {
            assert!(matches!(menu, MenuNode::Submenu { .. }));
        }
    }
}

#[test]
fn action_ids_are_the_seventeen_in_menu_order() {
    assert_eq!(build_menu(Platform::WindowMenuBar).action_ids(), all_ids());
    assert_eq!(build_menu(Platform::GlobalMenuBar).action_ids(), all_ids());
    assert_eq!(all_ids().len(), 17);
}

#[test]
fn action_ids_are_unique() {
    for platform in [Platform::GlobalMenuBar, Platform::WindowMenuBar] {
        let ids = build_menu(platform).action_ids();
        for i in 0..ids.len() {
            for j in 0..ids.len() {
                if i != j {
                    assert_ne!(ids[i], ids[j]);
                }
            }
        }
    }
}

#[test]
fn view_menu_keeps_its_order_on_both_hosts() {
    let expected: Vec<Option<&str>> = vec![
        Some("view.font.serif"),
        Some("view.font.sans"),
        Some("view.font.mono"),
        None,
        Some("view.width.narrow"),
        Some("view.width.wide"),
        None,
        Some("view.zoom_in"),
        Some("view.zoom_out"),
        Some("view.zoom_reset"),
        None,
        Some("view.theme.system"),
        Some("view.theme.light"),
        Some("view.theme.dark"),
    ];
    for (platform, index) in [(Platform::GlobalMenuBar, 3), (Platform::WindowMenuBar, 2)] {
        let tree = build_menu(platform);
        match &tree.menus()[index] {
            MenuNode::Submenu { label, children } => {
                assert_eq!(label, "View");
                assert_eq!(children.len(), expected.len());
                for (child, want) in children.iter().zip(expected.iter()) {
                    match (child, want) {
                        (MenuNode::Action { id, .. }, Some(want)) => assert_eq!(id, want),
                        (MenuNode::Separator, None) => {}
                        _ => panic!("the View menu is out of order"),
                    }
                }
            }
            _ => panic!("the View menu is not a submenu"),
        }
    }
}

#[test]
fn file_menu_separates_its_three_groups() {
    match file_menu() {
        MenuNode::Submenu { children, .. } => {
            assert_eq!(children.len(), 8);
            assert_eq!(children[4], MenuNode::Separator);
            assert_eq!(children[6], MenuNode::Separator);
            assert_eq!(children[7], MenuNode::Predefined(Predefined::CloseWindow));
        }
        _ => panic!("the File menu is not a submenu"),
    }
}

#[test]
fn accelerators_are_the_documented_ones() {
    let mut found: Vec<(String, String)> = Vec::new();
    for menu in build_menu(Platform::GlobalMenuBar).menus() {
        if let MenuNode::Submenu { children, .. } = menu {
            for child in children {
                if let MenuNode::Action { id, accelerator: Some(keys), .. } = child {
                    found.push((id.clone(), keys.clone()));
                }
            }
        }
    }
    let expected: Vec<(String, String)> = [
        ("file.new", "CmdOrCtrl+N"),
        ("file.open", "CmdOrCtrl+O"),
        ("file.save", "CmdOrCtrl+S"),
        ("file.save_as", "CmdOrCtrl+Shift+S"),
        ("file.rename", "CmdOrCtrl+Shift+R"),
        ("view.zoom_in", "CmdOrCtrl+="),
        ("view.zoom_out", "CmdOrCtrl+-"),
        ("view.zoom_reset", "CmdOrCtrl+0"),
    ]
    .iter()
    .map(|(id, keys)| (id.to_string(), keys.to_string()))
    .collect();
    assert_eq!(found, expected);
}

#[test]
fn every_action_entry_is_enabled() {
    for menu in build_menu(Platform::GlobalMenuBar).menus() {
        if let MenuNode::Submenu { children, .. } = menu {
            for child in children {
                if let MenuNode::Action { enabled, .. } = child {
                    assert!(*enabled);
                }
            }
        }
    }
}

#[test]
fn building_twice_gives_the_same_tree() {
    assert_eq!(build_menu(Platform::GlobalMenuBar), build_menu(Platform::GlobalMenuBar));
    assert_eq!(build_menu(Platform::WindowMenuBar), build_menu(Platform::WindowMenuBar));
    assert_ne!(build_menu(Platform::GlobalMenuBar), build_menu(Platform::WindowMenuBar));
}

#[test]
fn platform_is_told_from_the_name_of_the_system() {
    assert_eq!(Platform::of_os("macos"), Platform::GlobalMenuBar);
    assert_eq!(Platform::of_os("linux"), Platform::WindowMenuBar);
    assert_eq!(Platform::of_os("windows"), Platform::WindowMenuBar);
    assert_eq!(Platform::of_os("MacOS"), Platform::WindowMenuBar);
    assert_eq!(Platform::of_os("macos "), Platform::WindowMenuBar);
    assert_eq!(Platform::of_os(""), Platform::WindowMenuBar);
}

#[test]
fn constructors_build_what_they_are_given() {
    assert_eq!(
        MenuNode::action("file.save", "Save", true, Some("CmdOrCtrl+S")),
        action("file.save", "Save", Some("CmdOrCtrl+S"))
    );
    assert_eq!(MenuNode::action("help.docs", "Writing Tips", true, None), action("help.docs", "Writing Tips", None));
    assert_eq!(
        MenuNode::action("a.b", "B", false, None),
        MenuNode::Action {
            id: "a.b".to_string(),
            label: "B".to_string(),
            accelerator: None,
            enabled: false,
        }
    );
    let children = vec![MenuNode::Separator, action("a.b", "B", None)];
    assert_eq!(
        MenuNode::submenu("Menu", vec![MenuNode::Separator, action("a.b", "B", None)]),
        submenu("Menu", children)
    );
}

#[test]
fn collect_ids_walks_nested_submenus_in_order() {
    let inner = submenu("Inner", vec![action("x.two", "Two", None), MenuNode::Separator]);
    let outer = submenu(
        "Outer",
        vec![
            action("x.one", "One", None),
            inner,
            MenuNode::Predefined(Predefined::Copy),
            action("x.three", "Three", None),
        ],
    );
    let mut out = vec!["kept".to_string()];
    outer.collect_ids(&mut out);
    assert_eq!(out, vec!["kept", "x.one", "x.two", "x.three"]);
    let mut none: Vec<String> = Vec::new();
    MenuNode::Separator.collect_ids(&mut none);
    MenuNode::Predefined(Predefined::Quit).collect_ids(&mut none);
    submenu("Empty", Vec::new()).collect_ids(&mut none);
    assert!(none.is_empty());
}
