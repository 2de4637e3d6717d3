//! Menus, menu items, separators and context menus driven end to end:
//! menu-bar creation, command-id bookkeeping, enabling and detaching.

use native_ui::controls::{AnyHandle, ControlType};
use native_ui::error::Error;
use native_ui::menu::{ContextMenuT, MenuItemT, MenuT, SeparatorT};
use native_ui::ui::Ui;
use native_ui::window_helper::{build_window, WindowParams};

/// A registry with one root window registered under id 1.
fn menus_ui_with_root() -> Ui {
    let mut ui = Ui::new();
    let params = WindowParams {
        title: "root".to_string(),
        class_name: "Window".to_string(),
        position: (0, 0),
        size: (640, 480),
        flags: 0,
        ex_flags: None,
        parent: 0,
    };
    let root = build_window(&mut ui.system, params).expect("root window");
    ui.register(1, AnyHandle::HWND(root)).expect("register root");
    ui
}

fn menu_template(parent: u64, text: &str) -> MenuT {
    MenuT { text: text.to_string(), parent, disabled: false }
}

fn item_template(parent: u64, text: &str) -> MenuItemT {
    MenuItemT { text: text.to_string(), parent, disabled: false }
}

#[test]
fn menu_under_window_creates_the_menu_bar() {
    let mut ui = menus_ui_with_root();
    let menu = menu_template(1, "File").build(&mut ui).expect("menu");
    let root = match ui.handle_of(1).expect("root") {
        AnyHandle::HWND(h) => h,
        other => panic!("expected a window handle, got {:?}", other),
    };
    let wi = ui.system.find_window(root).expect("root index");
    let mb = ui.system.windows[wi].menubar.expect("menu bar");
    let mi = ui.system.find_menu(mb).expect("menu bar index");
    assert_eq!(ui.system.menus[mi].entries.len(), 1);
    assert!(menu.get_enabled(&ui));
    assert_eq!(menu.control_type(), ControlType::Menu);
    assert!(menu.children(&ui).is_empty());
}

#[test]
fn two_menus_share_one_menu_bar() {
    let mut ui = menus_ui_with_root();
    menu_template(1, "File").build(&mut ui).expect("first");
    menu_template(1, "Edit").build(&mut ui).expect("second");
    let root = match ui.handle_of(1).expect("root") {
        AnyHandle::HWND(h) => h,
        other => panic!("expected a window handle, got {:?}", other),
    };
    let wi = ui.system.find_window(root).expect("root index");
    let mb = ui.system.windows[wi].menubar.expect("menu bar");
    let mi = ui.system.find_menu(mb).expect("menu bar index");
    assert_eq!(ui.system.menus[mi].entries.len(), 2);
}

#[test]
fn menu_under_menu_is_its_child() {
    let mut ui = menus_ui_with_root();
    let file = menu_template(1, "File").build(&mut ui).expect("menu");
    ui.register(2, file.handle()).expect("register menu");
    let recent = menu_template(2, "Recent").build(&mut ui).expect("submenu");
    let children = file.children(&ui);
    assert_eq!(children.len(), 1);
    assert_eq!(children[0], recent.handle());
}

#[test]
fn menu_disabled_template_starts_disabled() {
    let mut ui = menus_ui_with_root();
    let mut t = menu_template(1, "File");
    t.disabled = true;
    let menu = t.build(&mut ui).expect("menu");
    assert!(!menu.get_enabled(&ui));
}

#[test]
fn menu_set_enabled_round_trips() {
    let mut ui = menus_ui_with_root();
    let menu = menu_template(1, "File").build(&mut ui).expect("menu");
    menu.set_enabled(&mut ui, false);
    assert!(!menu.get_enabled(&ui));
    menu.set_enabled(&mut ui, true);
    assert!(menu.get_enabled(&ui));
}

#[test]
fn menu_bad_parent_message_quotes_the_kind() {
    let mut ui = menus_ui_with_root();
    ui.register(5, AnyHandle::HFONT(3)).expect("register font");
    match menu_template(5, "File").build(&mut ui) {
        Err(Error::BadParent(m)) => {
            assert_eq!(m, "TreeView or TreeViewItem parent required got \"Font\"");
        }
        other => panic!("expected BadParent, got {:?}", other),
    }
}

#[test]
fn menu_unregistered_parent_is_key_not_found() {
    let mut ui = menus_ui_with_root();
    assert!(matches!(menu_template(9, "File").build(&mut ui), Err(Error::KeyNotFound)));
}

#[test]
fn menu_free_detaches_and_destroys() {
    let mut ui = menus_ui_with_root();
    let file = menu_template(1, "File").build(&mut ui).expect("menu");
    let mut edit = menu_template(1, "Edit").build(&mut ui).expect("menu");
    edit.free(&mut ui);
    let root = match ui.handle_of(1).expect("root") {
        AnyHandle::HWND(h) => h,
        other => panic!("expected a window handle, got {:?}", other),
    };
    let wi = ui.system.find_window(root).expect("root index");
    let mb = ui.system.windows[wi].menubar.expect("menu bar");
    let mi = ui.system.find_menu(mb).expect("menu bar index");
    assert_eq!(ui.system.menus[mi].entries.len(), 1);
    assert!(file.get_enabled(&ui));
}

#[test]
fn menu_item_ids_count_up_from_one() {
    let mut ui = menus_ui_with_root();
    let file = menu_template(1, "File").build(&mut ui).expect("menu");
    ui.register(2, file.handle()).expect("register menu");
    let open = item_template(2, "Open").build(&mut ui).expect("item");
    let save = item_template(2, "Save").build(&mut ui).expect("item");
    let sep = SeparatorT { parent: 2 }.build(&mut ui).expect("separator");
    let quit = item_template(2, "Quit").build(&mut ui).expect("item");
    let menu_h = match file.handle() {
        AnyHandle::HMENU(h) => h,
        other => panic!("expected a menu handle, got {:?}", other),
    };
    assert_eq!(open.handle(), AnyHandle::HMENU_ITEM(menu_h, 1));
    assert_eq!(save.handle(), AnyHandle::HMENU_ITEM(menu_h, 2));
    assert_eq!(sep.handle(), AnyHandle::HMENU_ITEM(menu_h, 3));
    assert_eq!(quit.handle(), AnyHandle::HMENU_ITEM(menu_h, 4));
    assert_eq!(ui.system.next_menu_item_id, 4);
    assert_eq!(file.children(&ui).len(), 4);
}

#[test]
fn menu_item_under_window_joins_the_menu_bar() {
    let mut ui = menus_ui_with_root();
    let item = item_template(1, "About").build(&mut ui).expect("item");
    let root = match ui.handle_of(1).expect("root") {
        AnyHandle::HWND(h) => h,
        other => panic!("expected a window handle, got {:?}", other),
    };
    let wi = ui.system.find_window(root).expect("root index");
    let mb = ui.system.windows[wi].menubar.expect("menu bar");
    assert_eq!(item.handle(), AnyHandle::HMENU_ITEM(mb, 1));
    assert!(item.get_enabled(&ui));
    assert_eq!(item.control_type(), ControlType::MenuItem);
}

#[test]
fn menu_item_enable_round_trips() {
    let mut ui = menus_ui_with_root();
    let file = menu_template(1, "File").build(&mut ui).expect("menu");
    ui.register(2, file.handle()).expect("register menu");
    let mut t = item_template(2, "Open");
    t.disabled = true;
    let item = t.build(&mut ui).expect("item");
    assert!(!item.get_enabled(&ui));
    item.set_enabled(&mut ui, true);
    assert!(item.get_enabled(&ui));
    item.set_enabled(&mut ui, false);
    assert!(!item.get_enabled(&ui));
}

#[test]
fn menu_item_bad_parent_names_the_kind() {
    let mut ui = menus_ui_with_root();
    ui.register(5, AnyHandle::HFONT(3)).expect("register font");
    match item_template(5, "Open").build(&mut ui) {
        Err(Error::BadParent(m)) => {
            assert_eq!(m, "A menu item parent must be a Menu or a Window. Got Font");
        }
        other => panic!("expected BadParent, got {:?}", other),
    }
}

#[test]
fn menu_item_free_detaches_it() {
    let mut ui = menus_ui_with_root();
    let file = menu_template(1, "File").build(&mut ui).expect("menu");
    ui.register(2, file.handle()).expect("register menu");
    let mut open = item_template(2, "Open").build(&mut ui).expect("item");
    let save = item_template(2, "Save").build(&mut ui).expect("item");
    open.free(&mut ui);
    let children = file.children(&ui);
    assert_eq!(children.len(), 1);
    assert_eq!(children[0], save.handle());
    assert!(!open.get_enabled(&ui));
}

#[test]
fn separator_needs_a_menu_parent() {
    let mut ui = menus_ui_with_root();
    match (SeparatorT { parent: 1 }).build(&mut ui) {
        Err(Error::BadParent(m)) => {
            assert_eq!(m, "A separator parent must be a Menu. Got Window");
        }
        other => panic!("expected BadParent, got {:?}", other),
    }
}

#[test]
fn separator_free_detaches_it() {
    let mut ui = menus_ui_with_root();
    let file = menu_template(1, "File").build(&mut ui).expect("menu");
    ui.register(2, file.handle()).expect("register menu");
    let mut sep = SeparatorT { parent: 2 }.build(&mut ui).expect("separator");
    assert_eq!(file.children(&ui).len(), 1);
    assert_eq!(sep.control_type(), ControlType::MenuItem);
    sep.free(&mut ui);
    assert!(file.children(&ui).is_empty());
}

#[test]
fn context_menu_pops_up_for_the_message_window() {
    let mut ui = menus_ui_with_root();
    let cm = ContextMenuT.build(&mut ui).expect("context menu");
    assert!(cm.children(&ui).is_empty());
    assert_eq!(cm.control_type(), ControlType::Menu);
    cm.pop_at(&mut ui, 40, 50);
    let popup = ui.system.popup.as_ref().expect("tracked popup");
    assert_eq!((popup.x, popup.y), (40, 50));
    assert_eq!(popup.owner, ui.message_handle());
    match cm.handle() {
        AnyHandle::HMENU(h) => assert_eq!(popup.menu, h),
        other => panic!("expected a menu handle, got {:?}", other),
    }
}

#[test]
fn context_menu_holds_items() {
    let mut ui = menus_ui_with_root();
    let cm = ContextMenuT.build(&mut ui).expect("context menu");
    ui.register(3, cm.handle()).expect("register context menu");
    let cut = item_template(3, "Cut").build(&mut ui).expect("item");
    let children = cm.children(&ui);
    assert_eq!(children.len(), 1);
    assert_eq!(children[0], cut.handle());
}

#[test]
fn context_menu_free_destroys_the_menu() {
    let mut ui = menus_ui_with_root();
    let mut cm = ContextMenuT.build(&mut ui).expect("context menu");
    cm.free(&mut ui);
    assert!(cm.children(&ui).is_empty());
    cm.pop_at(&mut ui, 1, 2);
    assert!(ui.system.popup.is_none());
}

#[test]
fn registry_rejects_duplicate_ids() {
    let mut ui = menus_ui_with_root();
    assert!(matches!(ui.register(1, AnyHandle::HFONT(9)), Err(Error::KeyExists)));
    assert!(matches!(ui.handle_of(77), Err(Error::KeyNotFound)));
}

#[test]
fn error_description_carries_the_message() {
    let e = Error::BadParent("no such parent".to_string());
    assert_eq!(e.description(), "no such parent");
    assert_eq!(Error::KeyNotFound.description(), "key not found in the ui");
    assert_eq!(Error::KeyExists.description(), "key already registered in the ui");
}

#[test]
fn menu_helper_targets_by_position_and_by_default_the_last_entry() {
    let mut ui = menus_ui_with_root();
    let file = menu_template(1, "File").build(&mut ui).expect("menu");
    ui.register(2, file.handle()).expect("register menu");
    item_template(2, "Open").build(&mut ui).expect("item");
    item_template(2, "Save").build(&mut ui).expect("item");
    let m = match file.handle() {
        AnyHandle::HMENU(h) => h,
        other => panic!("expected a menu handle, got {:?}", other),
    };
    native_ui::menu_helper::enable_menuitem(&mut ui.system, m, Some(0), None, false);
    assert!(!native_ui::menu_helper::is_menuitem_enabled(&ui.system, m, Some(0), None));
    assert!(native_ui::menu_helper::is_menuitem_enabled(&ui.system, m, Some(1), None));
    assert!(native_ui::menu_helper::is_menuitem_enabled(&ui.system, m, None, None));
    native_ui::menu_helper::enable_menuitem(&mut ui.system, m, None, None, false);
    assert!(!native_ui::menu_helper::is_menuitem_enabled(&ui.system, m, None, None));
    assert!(!native_ui::menu_helper::is_menuitem_enabled(&ui.system, m, Some(9), None));
}
