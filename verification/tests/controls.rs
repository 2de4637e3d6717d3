//! Window-side controls driven end to end: list views and text boxes built
//! from templates over a registry, then read and written through their
//! wrappers.

use native_ui::controls::{AnyHandle, ControlType};
use native_ui::defs::{
    ES_AUTOHSCROLL, ES_AUTOVSCROLL, ES_MULTILINE, ES_READONLY, LVS_LIST, WS_BORDER, WS_CHILD,
    WS_CLIPCHILDREN, WS_CLIPSIBLINGS, WS_DISABLED, WS_HSCROLL, WS_VISIBLE, WS_VSCROLL,
};
use native_ui::defs::{listview_flags, textbox_flags, with_bit, with_readonly, BS_NOTIFY};
use native_ui::error::Error;
use native_ui::listview::ListViewT;
use native_ui::textbox::TextBoxT;
use native_ui::ui::Ui;
use native_ui::window_helper::{build_window, get_window_long, WindowParams};

/// A registry with one root window registered under id 1.
fn ui_with_root() -> Ui {
    let mut ui = Ui::new();
    let params = WindowParams {
        title: "root".to_string(),
        class_name: "Window".to_string(),
        position: (10, 10),
        size: (640, 480),
        flags: WS_VISIBLE,
        ex_flags: None,
        parent: 0,
    };
    let root = build_window(&mut ui.system, params).expect("root window");
    ui.register(1, AnyHandle::HWND(root)).expect("register root");
    ui
}

fn listview_template(parent: u64) -> ListViewT {
    ListViewT {
        position: (5, 6),
        size: (120, 90),
        disabled: false,
        visible: true,
        parent,
        font: None,
    }
}

fn textbox_template(parent: u64) -> TextBoxT {
    TextBoxT {
        text: "hello".to_string(),
        position: (1, 2),
        size: (300, 200),
        visible: true,
        disabled: false,
        readonly: false,
        limit: 64,
        scrollbars: (false, true),
        parent,
        font: None,
    }
}

#[test]
fn listview_flags_exact_value() {
    assert_eq!(listview_flags(false, false), 0x4600_4003);
    assert_eq!(listview_flags(true, false), 0x5600_4003);
    assert_eq!(listview_flags(true, true), 0x5E00_4003);
    assert_eq!(
        listview_flags(false, true),
        WS_CHILD | BS_NOTIFY | WS_CLIPSIBLINGS | WS_CLIPCHILDREN | LVS_LIST | WS_DISABLED
    );
}

#[test]
fn textbox_flags_exact_value() {
    assert_eq!(textbox_flags(false, false, (false, false), false), 0x4080_00C4);
    assert_eq!(
        textbox_flags(true, true, (true, true), true),
        WS_CHILD
            | WS_BORDER
            | ES_AUTOHSCROLL
            | ES_MULTILINE
            | ES_AUTOVSCROLL
            | ES_READONLY
            | WS_VISIBLE
            | WS_HSCROLL
            | WS_VSCROLL
            | WS_DISABLED
    );
}

#[test]
fn with_bit_and_readonly_touch_one_bit() {
    let style = 0x4080_00C4;
    assert_eq!(with_readonly(style, true), style | ES_READONLY);
    assert_eq!(with_readonly(style | ES_READONLY, false), style);
    assert_eq!(with_bit(style, WS_VISIBLE, true), style | WS_VISIBLE);
    assert_eq!(with_bit(style | WS_VISIBLE, WS_VISIBLE, false), style);
}

#[test]
fn listview_builds_under_root() {
    let mut ui = ui_with_root();
    let lv = listview_template(1).build(&mut ui).expect("listview");
    assert!(lv.get_visibility(&ui));
    assert!(lv.get_enabled(&ui));
    assert_eq!(lv.get_position(&ui), (5, 6));
    assert_eq!(lv.get_size(&ui), (120, 90));
    assert_eq!(lv.get_text(&ui), "");
    assert_eq!(lv.control_type(), ControlType::ListView);
    assert!(matches!(lv.handle(), AnyHandle::HWND(_)));
}

#[test]
fn listview_hidden_and_disabled_flags_show_up() {
    let mut ui = ui_with_root();
    let mut t = listview_template(1);
    t.visible = false;
    t.disabled = true;
    let lv = t.build(&mut ui).expect("listview");
    assert!(!lv.get_visibility(&ui));
    assert!(!lv.get_enabled(&ui));
}

#[test]
fn listview_unregistered_parent_is_key_not_found() {
    let mut ui = Ui::new();
    let r = listview_template(42).build(&mut ui);
    assert_eq!(r.err(), Some(Error::KeyNotFound));
}

#[test]
fn listview_font_parent_is_bad_parent() {
    let mut ui = Ui::new();
    ui.register(2, AnyHandle::HFONT(77)).expect("register font");
    let r = listview_template(2).build(&mut ui);
    match r {
        Err(Error::BadParent(m)) => {
            assert_eq!(m, "The parent of a listview must be a window-like control.");
        }
        other => panic!("expected BadParent, got {:?}", other),
    }
}

#[test]
fn listview_dead_parent_window_is_system_error() {
    let mut ui = Ui::new();
    ui.register(3, AnyHandle::HWND(999)).expect("register stale handle");
    let r = listview_template(3).build(&mut ui);
    assert!(matches!(r, Err(Error::System(_))));
}

#[test]
fn listview_setters_round_trip() {
    let mut ui = ui_with_root();
    let lv = listview_template(1).build(&mut ui).expect("listview");
    lv.set_text(&mut ui, "rows");
    assert_eq!(lv.get_text(&ui), "rows");
    lv.set_position(&mut ui, -3, 40);
    assert_eq!(lv.get_position(&ui), (-3, 40));
    lv.set_size(&mut ui, 11, 22);
    assert_eq!(lv.get_size(&ui), (11, 22));
    lv.set_visibility(&mut ui, false);
    assert!(!lv.get_visibility(&ui));
    lv.set_enabled(&mut ui, false);
    assert!(!lv.get_enabled(&ui));
    lv.set_enabled(&mut ui, true);
    assert!(lv.get_enabled(&ui));
}

#[test]
fn listview_focus_lands_on_its_window() {
    let mut ui = ui_with_root();
    let lv = listview_template(1).build(&mut ui).expect("listview");
    lv.focus(&mut ui);
    match lv.handle() {
        AnyHandle::HWND(h) => assert_eq!(ui.system.focus, Some(h)),
        other => panic!("expected a window handle, got {:?}", other),
    }
}

#[test]
fn listview_font_resolution() {
    let mut ui = ui_with_root();
    ui.register(7, AnyHandle::HFONT(1234)).expect("register font");
    let mut t = listview_template(1);
    t.font = Some(7);
    let lv = t.build(&mut ui).expect("listview");
    assert_eq!(lv.get_font(&ui), Some(7));
    lv.set_font(&mut ui, None).expect("clear font");
    assert_eq!(lv.get_font(&ui), None);
    assert_eq!(lv.set_font(&mut ui, Some(99)).err(), Some(Error::KeyNotFound));
}

#[test]
fn listview_unknown_font_id_is_key_not_found() {
    let mut ui = ui_with_root();
    let mut t = listview_template(1);
    t.font = Some(8);
    assert_eq!(t.build(&mut ui).err(), Some(Error::KeyNotFound));
}

#[test]
fn listview_non_font_resource_is_bad_resource() {
    let mut ui = ui_with_root();
    ui.register(9, AnyHandle::HMENU(5)).expect("register");
    let mut t = listview_template(1);
    t.font = Some(9);
    match t.build(&mut ui) {
        Err(Error::BadResource(m)) => {
            assert_eq!(m, "The font of a button must be a font resource.");
        }
        other => panic!("expected BadResource, got {:?}", other),
    }
}

#[test]
fn listview_free_kills_the_window_and_handles_are_never_reused() {
    let mut ui = ui_with_root();
    let mut lv = listview_template(1).build(&mut ui).expect("listview");
    let first = lv.handle();
    lv.free(&mut ui);
    assert!(!lv.get_visibility(&ui));
    assert_eq!(lv.get_size(&ui), (0, 0));
    let lv2 = listview_template(1).build(&mut ui).expect("second listview");
    assert_ne!(first, lv2.handle());
}

#[test]
fn textbox_builds_with_text_and_limit() {
    let mut ui = ui_with_root();
    let tb = textbox_template(1).build(&mut ui).expect("textbox");
    assert_eq!(tb.get_text(&ui), "hello");
    assert_eq!(tb.get_limit(&ui), 64);
    assert!(!tb.get_readonly(&ui));
    assert!(tb.get_visibility(&ui));
    assert_eq!(tb.get_position(&ui), (1, 2));
    assert_eq!(tb.get_size(&ui), (300, 200));
    assert_eq!(tb.control_type(), ControlType::TextBox);
}

#[test]
fn textbox_style_carries_the_scrollbar_bits() {
    let mut ui = ui_with_root();
    let tb = textbox_template(1).build(&mut ui).expect("textbox");
    let style = match tb.handle() {
        AnyHandle::HWND(h) => get_window_long(&ui.system, h),
        other => panic!("expected a window handle, got {:?}", other),
    };
    assert_eq!(style & WS_HSCROLL, 0);
    assert_eq!(style & WS_VSCROLL, WS_VSCROLL);
    assert_eq!(style & WS_CHILD, WS_CHILD);
    assert_eq!(style & ES_MULTILINE, ES_MULTILINE);
}

#[test]
fn textbox_readonly_toggles_only_that_bit() {
    let mut ui = ui_with_root();
    let tb = textbox_template(1).build(&mut ui).expect("textbox");
    let h = match tb.handle() {
        AnyHandle::HWND(h) => h,
        other => panic!("expected a window handle, got {:?}", other),
    };
    let before = get_window_long(&ui.system, h);
    tb.set_readonly(&mut ui, true);
    assert!(tb.get_readonly(&ui));
    assert_eq!(get_window_long(&ui.system, h), before | ES_READONLY);
    tb.set_readonly(&mut ui, false);
    assert!(!tb.get_readonly(&ui));
    assert_eq!(get_window_long(&ui.system, h), before & !ES_READONLY);
}

#[test]
fn textbox_readonly_template_starts_readonly() {
    let mut ui = ui_with_root();
    let mut t = textbox_template(1);
    t.readonly = true;
    let tb = t.build(&mut ui).expect("textbox");
    assert!(tb.get_readonly(&ui));
}

#[test]
fn textbox_limit_can_be_changed() {
    let mut ui = ui_with_root();
    let tb = textbox_template(1).build(&mut ui).expect("textbox");
    tb.set_limit(&mut ui, 10_000);
    assert_eq!(tb.get_limit(&ui), 10_000);
}

#[test]
fn textbox_set_text_round_trips() {
    let mut ui = ui_with_root();
    let tb = textbox_template(1).build(&mut ui).expect("textbox");
    tb.set_text(&mut ui, "a new value");
    assert_eq!(tb.get_text(&ui), "a new value");
}

#[test]
fn textbox_bad_parent_message_names_a_textinput() {
    let mut ui = Ui::new();
    ui.register(2, AnyHandle::HMENU_ITEM(4, 9)).expect("register");
    match textbox_template(2).build(&mut ui) {
        Err(Error::BadParent(m)) => {
            assert_eq!(m, "The parent of a textinput must be a window-like control.");
        }
        other => panic!("expected BadParent, got {:?}", other),
    }
}

#[test]
fn textbox_free_leaves_other_windows_alone() {
    let mut ui = ui_with_root();
    let keep = textbox_template(1).build(&mut ui).expect("first");
    let mut gone = textbox_template(1).build(&mut ui).expect("second");
    keep.set_text(&mut ui, "stay");
    gone.free(&mut ui);
    assert_eq!(keep.get_text(&ui), "stay");
    assert_eq!(gone.get_text(&ui), "");
}

#[test]
fn templates_clone_their_fields() {
    let t = textbox_template(1);
    let c = t.clone();
    assert_eq!(c.text, t.text);
    assert_eq!(c.limit, t.limit);
    assert_eq!(c.scrollbars, t.scrollbars);
    let l = listview_template(3);
    let lc = l.clone();
    assert_eq!(lc.parent, 3);
    assert_eq!(lc.size, l.size);
}
