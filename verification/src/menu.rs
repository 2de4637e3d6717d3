//! Menu controls that integrate with the built-in window type: menus, context
//! menus, menu items and separators, each with its template and its
//! handle-owning wrapper.

use vstd::prelude::*;
use vstd::string::StringExecFns;

use crate::controls::{spec_human_name, AnyHandle, ControlType};
use crate::defs::{
    spec_popup_flags, TPM_LEFTALIGN, TPM_NOANIMATION, TPM_RIGHTBUTTON, TPM_TOPALIGN,
};
use crate::error::Error;
use crate::menu_helper::{
    enable_menu, enable_menuitem, first_id_idx, first_open_idx, is_menu_enabled,
    is_menuitem_enabled, list_menu_children, remove_menu_from_parent,
    remove_menu_item_from_parent, spec_child_handle, spec_entry_enabled_set, spec_entry_removed,
    spec_menu_enabled, spec_menuitem_enabled, spec_menuitem_idx, spec_resolved_menu,
    track_popup_menu_ex, use_menu_command,
};
use crate::system::{MenuEntry, MenuEntryKind, System, TrackedPopup, Window};
use crate::ui::{same_registry, Ui};

verus! {

/// The entry a menu build appends to its parent: it opens the new menu and
/// starts enabled unless the template says otherwise.
pub open spec fn spec_submenu_entry(h: u64, text: String, disabled: bool) -> MenuEntry {
    MenuEntry { kind: MenuEntryKind::Submenu(h), id: 0u32, text: text, enabled: !disabled }
}

/// The entry a menu item build appends to its parent.
pub open spec fn spec_item_entry(id: u32, text: String, disabled: bool) -> MenuEntry {
    MenuEntry { kind: MenuEntryKind::Item, id: id, text: text, enabled: !disabled }
}

/// A menu as a build leaves it: live, no entries yet.
pub open spec fn spec_fresh_menu(sys: System, h: u64, popup: bool) -> bool {
    &&& sys.has_menu(h)
    &&& sys.menu(h).handle == h
    &&& sys.menu(h).popup == popup
    &&& sys.menu(h).notify_by_pos == true
    &&& sys.menu(h).entries@ =~= Seq::<MenuEntry>::empty()
}

/// A menu build under a window: the window gained (or kept) its menu bar, the
/// menu bar gained one entry opening the fresh menu `h`, and nothing else
/// moved.
pub open spec fn spec_menu_added_under_window(
    pre: Ui,
    post: Ui,
    p: u64,
    h: u64,
    text: String,
    disabled: bool,
) -> bool {
    &&& post.wf()
    &&& same_registry(pre, post)
    &&& !pre.system.has_menu(h)
    &&& !pre.system.has_window(h)
    &&& spec_fresh_menu(post.system, h, false)
    &&& post.system.has_window(p)
    &&& post.system.window(p).menubar is Some
    &&& {
        let mb = post.system.window(p).menubar->Some_0;
        &&& mb != h
        &&& post.system.has_menu(mb)
        &&& (pre.system.window(p).menubar matches Some(mb0) ==> mb == mb0 && post.system.menu(
            mb,
        ).entries@ == pre.system.menu(mb).entries@.push(spec_submenu_entry(h, text, disabled))
            && post.system.menu(mb).popup == pre.system.menu(mb).popup && post.system.menu(
            mb,
        ).notify_by_pos == pre.system.menu(mb).notify_by_pos)
        &&& (pre.system.window(p).menubar is None ==> !pre.system.has_menu(mb)
            && !pre.system.has_window(mb) && post.system.menu(mb).entries@ =~= seq![
            spec_submenu_entry(h, text, disabled),
        ] && post.system.menu(mb).popup == false && post.system.menu(mb).notify_by_pos == true)
        &&& post.system.window(p) == (Window {
            menubar: Some(mb),
            ..pre.system.window(p)
        })
        &&& (forall|h2: u64|
            h2 != h && h2 != mb ==> post.system.has_menu(h2) == pre.system.has_menu(h2))
        &&& (forall|h2: u64|
            h2 != h && h2 != mb && pre.system.has_menu(h2) ==> post.system.menu(h2)
                == pre.system.menu(h2))
    }
    &&& (forall|h2: u64| post.system.has_window(h2) == pre.system.has_window(h2))
    &&& (forall|h2: u64|
        h2 != p && pre.system.has_window(h2) ==> post.system.window(h2) == pre.system.window(h2))
    &&& post.system.next_menu_item_id == pre.system.next_menu_item_id
    &&& post.system.focus == pre.system.focus
    &&& post.system.popup == pre.system.popup
}

/// A menu build under a menu: the parent menu gained one entry opening the
/// fresh popup menu `h`, and nothing else moved.
pub open spec fn spec_menu_added_under_menu(
    pre: Ui,
    post: Ui,
    pm: u64,
    h: u64,
    text: String,
    disabled: bool,
) -> bool {
    &&& post.wf()
    &&& same_registry(pre, post)
    &&& !pre.system.has_menu(h)
    &&& !pre.system.has_window(h)
    &&& spec_fresh_menu(post.system, h, true)
    &&& pm != h
    &&& post.system.has_menu(pm)
    &&& post.system.menu(pm).entries@ == pre.system.menu(pm).entries@.push(
        spec_submenu_entry(h, text, disabled),
    )
    &&& post.system.menu(pm).popup == pre.system.menu(pm).popup
    &&& post.system.menu(pm).notify_by_pos == pre.system.menu(pm).notify_by_pos
    &&& post.system.windows@ == pre.system.windows@
    &&& (forall|h2: u64| h2 != h ==> post.system.has_menu(h2) == pre.system.has_menu(h2))
    &&& (forall|h2: u64|
        h2 != h && h2 != pm && pre.system.has_menu(h2) ==> post.system.menu(h2) == pre.system.menu(
            h2,
        ))
    &&& (forall|h2: u64| post.system.has_window(h2) == pre.system.has_window(h2))
    &&& (forall|h2: u64|
        pre.system.has_window(h2) ==> post.system.window(h2) == pre.system.window(h2))
    &&& post.system.next_menu_item_id == pre.system.next_menu_item_id
    &&& post.system.focus == pre.system.focus
    &&& post.system.popup == pre.system.popup
}

/// A menu item appended to a live menu: the menu gained one item entry whose
/// command id is the next one the counter hands out, and nothing else moved.
pub open spec fn spec_item_added(
    pre: Ui,
    post: Ui,
    target: u64,
    id: u32,
    text: String,
    disabled: bool,
) -> bool {
    &&& post.wf()
    &&& same_registry(pre, post)
    &&& id == pre.system.next_menu_item_id + 1
    &&& post.system.next_menu_item_id == id
    &&& post.system.has_menu(target)
    &&& post.system.menu(target).handle == target
    &&& post.system.menu(target).entries@ == pre.system.menu(target).entries@.push(
        spec_item_entry(id, text, disabled),
    )
    &&& post.system.menu(target).popup == pre.system.menu(target).popup
    &&& post.system.menu(target).notify_by_pos == pre.system.menu(target).notify_by_pos
    &&& (forall|h2: u64| post.system.has_menu(h2) == pre.system.has_menu(h2))
    &&& (forall|h2: u64|
        h2 != target && pre.system.has_menu(h2) ==> post.system.menu(h2) == pre.system.menu(h2))
    &&& post.system.windows@ == pre.system.windows@
    &&& (forall|h2: u64| post.system.has_window(h2) == pre.system.has_window(h2))
    &&& (forall|h2: u64|
        pre.system.has_window(h2) ==> post.system.window(h2) == pre.system.window(h2))
    &&& post.system.next_handle == pre.system.next_handle
    &&& post.system.focus == pre.system.focus
    &&& post.system.popup == pre.system.popup
}

/// A separator appended to a live menu: the menu gained one separator entry
/// whose command id is the next one the counter hands out, and nothing else
/// moved.
pub open spec fn spec_separator_added(pre: Ui, post: Ui, target: u64, id: u32) -> bool {
    &&& post.wf()
    &&& same_registry(pre, post)
    &&& id == pre.system.next_menu_item_id + 1
    &&& post.system.next_menu_item_id == id
    &&& post.system.has_menu(target)
    &&& post.system.menu(target).handle == target
    &&& post.system.menu(target).entries@.len() == pre.system.menu(target).entries@.len() + 1
    &&& post.system.menu(target).entries@.drop_last() == pre.system.menu(target).entries@
    &&& post.system.menu(target).entries@.last().kind is Separator
    &&& post.system.menu(target).entries@.last().id == id
    &&& post.system.menu(target).entries@.last().text@ =~= Seq::<char>::empty()
    &&& post.system.menu(target).entries@.last().enabled == true
    &&& post.system.menu(target).popup == pre.system.menu(target).popup
    &&& post.system.menu(target).notify_by_pos == pre.system.menu(target).notify_by_pos
    &&& (forall|h2: u64| post.system.has_menu(h2) == pre.system.has_menu(h2))
    &&& (forall|h2: u64|
        h2 != target && pre.system.has_menu(h2) ==> post.system.menu(h2) == pre.system.menu(h2))
    &&& post.system.windows@ == pre.system.windows@
    &&& (forall|h2: u64| post.system.has_window(h2) == pre.system.has_window(h2))
    &&& (forall|h2: u64|
        pre.system.has_window(h2) ==> post.system.window(h2) == pre.system.window(h2))
    &&& post.system.next_handle == pre.system.next_handle
    &&& post.system.focus == pre.system.focus
    &&& post.system.popup == pre.system.popup
}

/// Carry window lookups across a step that left the window table itself
/// untouched.
proof fn lemma_windows_carried(pre: System, post: System)
    requires
        pre.wf_windows(),
        post.wf_windows(),
        post.windows@ == pre.windows@,
    ensures
        (forall|h2: u64| post.has_window(h2) == pre.has_window(h2)),
        (forall|h2: u64| pre.has_window(h2) ==> post.window(h2) == pre.window(h2)),
{
    assert forall|h2: u64| post.has_window(h2) == pre.has_window(h2) by {
        if pre.has_window(h2) {
            let k = pre.win_index(h2);
            pre.lemma_win_index(k, h2);
            post.lemma_win_index(k, h2);
        }
        if post.has_window(h2) {
            let k = post.win_index(h2);
            post.lemma_win_index(k, h2);
            pre.lemma_win_index(k, h2);
        }
    }
    assert forall|h2: u64| pre.has_window(h2) implies post.window(h2) == pre.window(h2) by {
        let k = pre.win_index(h2);
        pre.lemma_win_index(k, h2);
        post.lemma_win_index(k, h2);
    }
}

/// Create a fresh menu under a live target menu: the inner step every menu
/// build shares. Appends an entry opening the fresh menu to the target and
/// leaves the entry enabled as the template asks.
fn append_submenu(ui: &mut Ui, target: u64, popup: bool, text: String, disabled: bool) -> (h: u64)
    requires
        old(ui).wf(),
        old(ui).system.has_menu(target),
        old(ui).system.next_handle < u64::MAX,
    ensures
        final(ui).wf(),
        same_registry(*old(ui), *final(ui)),
        h == old(ui).system.next_handle,
        !old(ui).system.has_menu(h),
        !old(ui).system.has_window(h),
        target != h,
        spec_fresh_menu(final(ui).system, h, popup),
        final(ui).system.has_menu(target),
        final(ui).system.menu(target).handle == target,
        final(ui).system.menu(target).popup == old(ui).system.menu(target).popup,
        final(ui).system.menu(target).notify_by_pos == old(ui).system.menu(target).notify_by_pos,
        final(ui).system.menu(target).entries@ == old(ui).system.menu(target).entries@.push(
            spec_submenu_entry(h, text, disabled),
        ),
        final(ui).system.windows@ == old(ui).system.windows@,
        final(ui).system.next_handle == old(ui).system.next_handle + 1,
        final(ui).system.next_menu_item_id == old(ui).system.next_menu_item_id,
        final(ui).system.focus == old(ui).system.focus,
        final(ui).system.popup == old(ui).system.popup,
        (forall|h2: u64|
            h2 != h ==> final(ui).system.has_menu(h2) == old(ui).system.has_menu(h2)),
        (forall|h2: u64|
            h2 != h && h2 != target && old(ui).system.has_menu(h2) ==> final(ui).system.menu(h2)
                == old(ui).system.menu(h2)),
        (forall|h2: u64| final(ui).system.has_window(h2) == old(ui).system.has_window(h2)),
        (forall|h2: u64|
            old(ui).system.has_window(h2) ==> final(ui).system.window(h2) == old(ui).system.window(
                h2,
            )),
{
    let ghost s0 = ui.system;
    let h = ui.system.create_menu_raw(popup);
    let ghost s1 = ui.system;
    use_menu_command(&mut ui.system, h);
    let ghost s2 = ui.system;
    proof {
        assert(s1.has_menu(target) && s1.menu(target) == s0.menu(target));
        assert(s2.has_menu(target) && s2.menu(target) == s0.menu(target));
        assert(s2.has_menu(h) && s2.menu(h).entries@ =~= Seq::<MenuEntry>::empty());
    }
    let ghost tv = text;
    ui.system.append_menu_submenu(target, h, text, true);
    let ghost s3 = ui.system;
    enable_menuitem(&mut ui.system, target, None, None, !disabled);
    proof {
        let sf = ui.system;
        let es0 = s0.menu(target).entries@;
        let pushed = MenuEntry { kind: MenuEntryKind::Submenu(h), id: 0u32, text: tv, enabled: true };
        assert(s3.menu(target).entries@ == es0.push(pushed));
        assert(s3.menu(target).entries@.len() == es0.len() + 1);
        assert(spec_menuitem_idx(s3.menu(target).entries@, None, None) == es0.len() as int);
        assert(spec_entry_enabled_set(s3, sf, target, es0.len() as int, !disabled));
        assert(sf.menu(target).entries@ =~= es0.push(spec_submenu_entry(h, tv, disabled)));
        assert(s3.menu(h) == s2.menu(h));
        assert(sf.menu(h) == s3.menu(h));
        assert(spec_fresh_menu(sf, h, popup));
        assert forall|h2: u64| h2 != h implies sf.has_menu(h2) == s0.has_menu(h2) by {
            assert(s1.has_menu(h2) == s0.has_menu(h2));
            assert(s2.has_menu(h2) == s1.has_menu(h2));
            assert(s3.has_menu(h2) == s2.has_menu(h2));
            assert(sf.has_menu(h2) == s3.has_menu(h2));
        }
        assert forall|h2: u64| h2 != h && h2 != target && s0.has_menu(h2) implies sf.menu(h2)
            == s0.menu(h2) by {
            assert(s1.menu(h2) == s0.menu(h2));
            assert(s2.menu(h2) == s1.menu(h2));
            assert(s3.menu(h2) == s2.menu(h2));
            assert(sf.menu(h2) == s3.menu(h2));
        }
        assert(sf.windows@ == s0.windows@);
        lemma_windows_carried(s0, sf);
    }
    h
}

/// Append a text item to a live menu, enabled as the template asks, drawing
/// its command id from the global counter: the inner step every menu item
/// build shares.
fn append_item(ui: &mut Ui, target: u64, text: String, disabled: bool) -> (id: u32)
    requires
        old(ui).wf(),
        old(ui).system.has_menu(target),
        old(ui).system.next_menu_item_id < u32::MAX,
    ensures
        spec_item_added(*old(ui), *final(ui), target, id, text, disabled),
{
    let ghost s0 = ui.system;
    let ghost tv = text;
    let id = ui.system.append_menu_cmd(target, false, text, true);
    let ghost s1 = ui.system;
    enable_menuitem(&mut ui.system, target, None, None, !disabled);
    proof {
        let sf = ui.system;
        let es0 = s0.menu(target).entries@;
        let pushed = MenuEntry { kind: MenuEntryKind::Item, id: id, text: tv, enabled: true };
        assert(s1.menu(target).entries@ == es0.push(pushed));
        assert(spec_menuitem_idx(s1.menu(target).entries@, None, None) == es0.len() as int);
        assert(spec_entry_enabled_set(s1, sf, target, es0.len() as int, !disabled));
        assert(sf.menu(target).entries@ =~= es0.push(spec_item_entry(id, tv, disabled)));
        assert forall|h2: u64| sf.has_menu(h2) == s0.has_menu(h2) by {
            assert(s1.has_menu(h2) == s0.has_menu(h2));
            assert(sf.has_menu(h2) == s1.has_menu(h2));
        }
        assert forall|h2: u64| h2 != target && s0.has_menu(h2) implies sf.menu(h2) == s0.menu(
            h2,
        ) by {
            assert(s1.menu(h2) == s0.menu(h2));
            assert(sf.menu(h2) == s1.menu(h2));
        }
        assert(sf.windows@ == s0.windows@);
        lemma_windows_carried(s0, sf);
    }
    id
}

/// The menu bar of a live window, creating and attaching one when the window
/// has none. `with_command` says whether a created menu bar is asked to
/// report picks by position.
fn get_or_create_menubar(ui: &mut Ui, p: u64, with_command: bool) -> (mb: u64)
    requires
        old(ui).wf(),
        old(ui).system.has_window(p),
        old(ui).system.next_handle < u64::MAX,
    ensures
        final(ui).wf(),
        same_registry(*old(ui), *final(ui)),
        final(ui).system.has_menu(mb),
        final(ui).system.has_window(p),
        final(ui).system.window(p).menubar == Some(mb),
        (old(ui).system.window(p).menubar matches Some(mb0) ==> mb == mb0 && *final(ui) == *old(
            ui,
        )),
        (old(ui).system.window(p).menubar is None ==> mb == old(ui).system.next_handle && !old(
            ui,
        ).system.has_menu(mb) && !old(ui).system.has_window(mb) && final(ui).system.next_handle
            == old(ui).system.next_handle + 1 && final(ui).system.menu(mb).handle == mb && final(ui).system.menu(mb).popup == false && final(ui).system.menu(mb).notify_by_pos == with_command
            && final(ui).system.menu(mb).entries@ =~= Seq::<MenuEntry>::empty() && final(ui).system.window(p) == (Window { menubar: Some(mb), ..old(ui).system.window(p) }) && (
        forall|h2: u64| h2 != mb ==> final(ui).system.has_menu(h2) == old(ui).system.has_menu(h2))
            && (forall|h2: u64|
            h2 != mb && old(ui).system.has_menu(h2) ==> final(ui).system.menu(h2) == old(
                ui,
            ).system.menu(h2)) && (forall|h2: u64|
            final(ui).system.has_window(h2) == old(ui).system.has_window(h2)) && (forall|h2: u64|
            h2 != p && old(ui).system.has_window(h2) ==> final(ui).system.window(h2) == old(
                ui,
            ).system.window(h2)) && final(ui).system.next_menu_item_id == old(
            ui,
        ).system.next_menu_item_id && final(ui).system.focus == old(ui).system.focus && final(ui).system.popup == old(ui).system.popup),
    {
    let wi = match ui.system.find_window(p) {
        Some(wi) => wi,
        None => {
            proof {
                assert(false);
            }
            0
        },
    };
    proof {
        ui.system.lemma_win_index(wi as int, p);
    }
    match ui.system.windows[wi].menubar {
        Some(mb) => mb,
        None => {
            let ghost s0 = ui.system;
            let mb = ui.system.create_menu_raw(false);
            let ghost s1 = ui.system;
            if with_command {
                use_menu_command(&mut ui.system, mb);
            }
            let ghost s2 = ui.system;
            proof {
                assert(s2.has_window(p) && s2.window(p) == s0.window(p));
                assert(s2.has_menu(mb));
                assert(s2.menu(mb).notify_by_pos == with_command);
                assert(s2.menu(mb).popup == false);
                assert(s2.menu(mb).entries@ =~= Seq::<MenuEntry>::empty());
            }
            crate::window_helper::set_menu(&mut ui.system, p, mb);
            proof {
                let sf = ui.system;
                assert forall|h2: u64| h2 != mb implies sf.has_menu(h2) == s0.has_menu(h2) by {
                    assert(s1.has_menu(h2) == s0.has_menu(h2));
                    assert(s2.has_menu(h2) == s1.has_menu(h2));
                    assert(sf.has_menu(h2) == s2.has_menu(h2));
                }
                assert forall|h2: u64| h2 != mb && s0.has_menu(h2) implies sf.menu(h2) == s0.menu(
                    h2,
                ) by {
                    assert(s1.menu(h2) == s0.menu(h2));
                    assert(s2.menu(h2) == s1.menu(h2));
                    assert(sf.menu(h2) == s2.menu(h2));
                }
                assert(s2.windows@ == s0.windows@);
                lemma_windows_carried(s0, s2);
            }
            mb
        },
    }
}

/// Build a menu under the control registered as `parent`: under a window it
/// hangs off the window's menu bar (created on first need), under a menu it
/// becomes a popup submenu. Fails with `KeyNotFound` when the parent id is
/// unregistered, `BadParent` when it names a menu item or a font, and
/// `System` when the named window or menu is no longer live.
fn build_menu(ui: &mut Ui, t: &MenuT) -> (r: Result<(u64, AnyHandle), Error>)
    requires
        old(ui).wf(),
        old(ui).system.next_handle < u64::MAX - 1,
    ensures
        final(ui).wf(),
        same_registry(*old(ui), *final(ui)),
        (!old(ui).registered(t.parent) ==> r == Err::<(u64, AnyHandle), Error>(Error::KeyNotFound)
            && *final(ui) == *old(ui)),
        ((old(ui).registered(t.parent) && (old(ui).lookup(t.parent) is HMENU_ITEM || old(
            ui,
        ).lookup(t.parent) is HFONT)) ==> (r matches Err(e) && e matches Error::BadParent(m) && m@
            == "TreeView or TreeViewItem parent required got \""@ + spec_human_name(
            old(ui).lookup(t.parent),
        ) + "\""@) && *final(ui) == *old(ui)),
        (old(ui).registered(t.parent) ==> (old(ui).lookup(t.parent) matches AnyHandle::HWND(p)
            ==> {
            &&& (!old(ui).system.has_window(p) ==> (r matches Err(e) && e is System) && *final(ui)
                == *old(ui))
            &&& (old(ui).system.has_window(p) ==> (r matches Ok(pair)
                && spec_menu_added_under_window(
                *old(ui),
                *final(ui),
                p,
                pair.0,
                t.text,
                t.disabled,
            ) && pair.1 == AnyHandle::HWND(p)))
        })),
        (old(ui).registered(t.parent) ==> (old(ui).lookup(t.parent) matches AnyHandle::HMENU(pm)
            ==> {
            &&& (!old(ui).system.has_menu(pm) ==> (r matches Err(e) && e is System) && *final(ui)
                == *old(ui))
            &&& (old(ui).system.has_menu(pm) ==> (r matches Ok(pair) && spec_menu_added_under_menu(
                *old(ui),
                *final(ui),
                pm,
                pair.0,
                t.text,
                t.disabled,
            ) && pair.1 == AnyHandle::HMENU(pm)))
        })),
{
    let parent_handle = match ui.handle_of(t.parent) {
        Ok(h) => h,
        Err(e) => {
            return Err(e);
        },
    };
    match parent_handle {
        AnyHandle::HWND(parent_h) => {
            if ui.system.find_window(parent_h).is_none() {
                return Err(Error::System("the parent window of the menu is gone".to_string()));
            }
            let mb = get_or_create_menubar(ui, parent_h, true);
            let ghost m1 = *ui;
            let h = append_submenu(ui, mb, false, t.text.clone(), t.disabled);
            proof {
                assert(ui.system.has_window(parent_h));
                assert(ui.system.window(parent_h) == m1.system.window(parent_h));
                assert(ui.system.window(parent_h).menubar == Some(mb));
            }
            Ok((h, AnyHandle::HWND(parent_h)))
        },
        AnyHandle::HMENU(parent_h) => {
            if ui.system.find_menu(parent_h).is_none() {
                return Err(Error::System("the parent menu of the menu is gone".to_string()));
            }
            let h = append_submenu(ui, parent_h, true, t.text.clone(), t.disabled);
            Ok((h, AnyHandle::HMENU(parent_h)))
        },
        other => {
            let mut m = "TreeView or TreeViewItem parent required got \"".to_string();
            let name = other.human_name();
            m.append(name.as_str());
            m.append("\"");
            proof {
                reveal_strlit("\"");
            }
            Err(Error::BadParent(m))
        },
    }
}

/// Build a context menu: a fresh popup menu owned by the hidden message
/// window. Never fails.
fn build_context_menu(ui: &mut Ui) -> (r: Result<(u64, u64), Error>)
    requires
        old(ui).wf(),
        old(ui).system.next_handle < u64::MAX,
    ensures
        final(ui).wf(),
        same_registry(*old(ui), *final(ui)),
        (r matches Ok(pair) && {
            let h = pair.0;
            &&& pair.1 == old(ui).message_window
            &&& h == old(ui).system.next_handle
            &&& !old(ui).system.has_menu(h)
            &&& !old(ui).system.has_window(h)
            &&& spec_fresh_menu(final(ui).system, h, true)
            &&& final(ui).system.windows@ == old(ui).system.windows@
            &&& (forall|h2: u64|
                h2 != h ==> final(ui).system.has_menu(h2) == old(ui).system.has_menu(h2))
            &&& (forall|h2: u64|
                h2 != h && old(ui).system.has_menu(h2) ==> final(ui).system.menu(h2) == old(
                    ui,
                ).system.menu(h2))
            &&& (forall|h2: u64|
                final(ui).system.has_window(h2) == old(ui).system.has_window(h2))
            &&& (forall|h2: u64|
                old(ui).system.has_window(h2) ==> final(ui).system.window(h2) == old(
                    ui,
                ).system.window(h2))
            &&& final(ui).system.next_menu_item_id == old(ui).system.next_menu_item_id
            &&& final(ui).system.focus == old(ui).system.focus
            &&& final(ui).system.popup == old(ui).system.popup
        }),
{
    let ghost s0 = ui.system;
    let menu = ui.system.create_menu_raw(true);
    use_menu_command(&mut ui.system, menu);
    proof {
        let sf = ui.system;
        assert forall|h2: u64| h2 != menu implies sf.has_menu(h2) == s0.has_menu(h2) by {}
        assert forall|h2: u64| h2 != menu && s0.has_menu(h2) implies sf.menu(h2) == s0.menu(
            h2,
        ) by {}
        assert(sf.windows@ == s0.windows@);
        lemma_windows_carried(s0, sf);
    }
    Ok((menu, ui.message_handle()))
}

/// Build a menu item under the control registered as `parent`: under a window
/// it joins the window's menu bar (created on first need), under a menu it
/// joins that menu. Fails with `KeyNotFound` when the parent id is
/// unregistered, `BadParent` when it names a menu item or a font, and
/// `System` when the named window or menu is no longer live.
fn build_menu_item(ui: &mut Ui, t: &MenuItemT) -> (r: Result<(u64, u32), Error>)
    requires
        old(ui).wf(),
        old(ui).system.next_handle < u64::MAX,
        old(ui).system.next_menu_item_id < u32::MAX,
    ensures
        final(ui).wf(),
        same_registry(*old(ui), *final(ui)),
        (!old(ui).registered(t.parent) ==> r == Err::<(u64, u32), Error>(Error::KeyNotFound)
            && *final(ui) == *old(ui)),
        ((old(ui).registered(t.parent) && (old(ui).lookup(t.parent) is HMENU_ITEM || old(
            ui,
        ).lookup(t.parent) is HFONT)) ==> (r matches Err(e) && e matches Error::BadParent(m) && m@
            == "A menu item parent must be a Menu or a Window. Got "@ + spec_human_name(
            old(ui).lookup(t.parent),
        )) && *final(ui) == *old(ui)),
        (old(ui).registered(t.parent) ==> (old(ui).lookup(t.parent) matches AnyHandle::HWND(p)
            ==> {
            &&& (!old(ui).system.has_window(p) ==> (r matches Err(e) && e is System) && *final(ui)
                == *old(ui))
            &&& (old(ui).system.has_window(p) ==> (r matches Ok(pair) && {
                let target = pair.0;
                let id = pair.1;
                &&& id == old(ui).system.next_menu_item_id + 1
                &&& final(ui).system.has_window(p)
                &&& final(ui).system.window(p).menubar == Some(target)
                &&& final(ui).system.window(p) == (Window {
                    menubar: Some(target),
                    ..old(ui).system.window(p)
                })
                &&& (old(ui).system.window(p).menubar matches Some(mb0) ==> target == mb0)
                &&& (old(ui).system.window(p).menubar is None ==> !old(ui).system.has_menu(target)
                    && !old(ui).system.has_window(target) && final(ui).system.menu(target).popup
                    == false && final(ui).system.menu(target).notify_by_pos == false && final(ui).system.menu(target).entries@ =~= seq![
                    spec_item_entry(id, t.text, t.disabled),
                ] && final(ui).system.next_handle == old(ui).system.next_handle + 1)
                &&& (old(ui).system.window(p).menubar matches Some(mb0) ==> final(ui).system.menu(target).entries@ == old(ui).system.menu(mb0).entries@.push(
                    spec_item_entry(id, t.text, t.disabled),
                ) && final(ui).system.next_handle == old(ui).system.next_handle)
                &&& final(ui).system.next_menu_item_id == id
                &&& final(ui).system.has_menu(target)
                &&& (forall|h2: u64|
                    h2 != target ==> final(ui).system.has_menu(h2) == old(ui).system.has_menu(h2))
                &&& (forall|h2: u64|
                    h2 != target && old(ui).system.has_menu(h2) ==> final(ui).system.menu(h2)
                        == old(ui).system.menu(h2))
                &&& (forall|h2: u64|
                    final(ui).system.has_window(h2) == old(ui).system.has_window(h2))
                &&& (forall|h2: u64|
                    h2 != p && old(ui).system.has_window(h2) ==> final(ui).system.window(h2)
                        == old(ui).system.window(h2))
                &&& final(ui).system.focus == old(ui).system.focus
                &&& final(ui).system.popup == old(ui).system.popup
            }))
        })),
        (old(ui).registered(t.parent) ==> (old(ui).lookup(t.parent) matches AnyHandle::HMENU(pm)
            ==> {
            &&& (!old(ui).system.has_menu(pm) ==> (r matches Err(e) && e is System) && *final(ui)
                == *old(ui))
            &&& (old(ui).system.has_menu(pm) ==> (r matches Ok(pair) && pair.0 == pm
                && spec_item_added(*old(ui), *final(ui), pm, pair.1, t.text, t.disabled)))
        })),
{
    let parent_handle = match ui.handle_of(t.parent) {
        Ok(h) => h,
        Err(e) => {
            return Err(e);
        },
    };
    match parent_handle {
        AnyHandle::HWND(parent_h) => {
            if ui.system.find_window(parent_h).is_none() {
                return Err(
                    Error::System("the parent window of the menu item is gone".to_string()),
                );
            }
            let mb = get_or_create_menubar(ui, parent_h, false);
            let ghost m1 = *ui;
            let id = append_item(ui, mb, t.text.clone(), t.disabled);
            proof {
                assert(ui.system.has_window(parent_h));
                assert(ui.system.window(parent_h) == m1.system.window(parent_h));
                assert(ui.system.window(parent_h).menubar == Some(mb));
            }
            Ok((mb, id))
        },
        AnyHandle::HMENU(parent_h) => {
            if ui.system.find_menu(parent_h).is_none() {
                return Err(Error::System("the parent menu of the menu item is gone".to_string()));
            }
            let id = append_item(ui, parent_h, t.text.clone(), t.disabled);
            Ok((parent_h, id))
        },
        other => {
            let mut m = "A menu item parent must be a Menu or a Window. Got ".to_string();
            let name = other.human_name();
            m.append(name.as_str());
            Err(Error::BadParent(m))
        },
    }
}

/// Build a separator under the menu registered as `parent`. Fails with
/// `KeyNotFound` when the parent id is unregistered, `BadParent` when it
/// names anything but a menu, and `System` when the menu is no longer live.
fn build_separator(ui: &mut Ui, t: &SeparatorT) -> (r: Result<(u64, u32), Error>)
    requires
        old(ui).wf(),
        old(ui).system.next_menu_item_id < u32::MAX,
    ensures
        final(ui).wf(),
        same_registry(*old(ui), *final(ui)),
        (!old(ui).registered(t.parent) ==> r == Err::<(u64, u32), Error>(Error::KeyNotFound)
            && *final(ui) == *old(ui)),
        ((old(ui).registered(t.parent) && !(old(ui).lookup(t.parent) is HMENU)) ==> (r matches Err(
            e,
        ) && e matches Error::BadParent(m) && m@ == "A separator parent must be a Menu. Got "@
            + spec_human_name(old(ui).lookup(t.parent))) && *final(ui) == *old(ui)),
        (old(ui).registered(t.parent) ==> (old(ui).lookup(t.parent) matches AnyHandle::HMENU(pm)
            ==> {
            &&& (!old(ui).system.has_menu(pm) ==> (r matches Err(e) && e is System) && *final(ui)
                == *old(ui))
            &&& (old(ui).system.has_menu(pm) ==> (r matches Ok(pair) && pair.0 == pm
                && spec_separator_added(*old(ui), *final(ui), pm, pair.1)))
        })),
{
    let parent_handle = match ui.handle_of(t.parent) {
        Ok(h) => h,
        Err(e) => {
            return Err(e);
        },
    };
    match parent_handle {
        AnyHandle::HMENU(parent_h) => {
            if ui.system.find_menu(parent_h).is_none() {
                return Err(Error::System("the parent menu of the separator is gone".to_string()));
            }
            let ghost s0 = ui.system;
            let id = ui.system.append_menu_cmd(parent_h, true, "".to_string(), true);
            proof {
                let sf = ui.system;
                reveal_strlit("");
                assert(sf.menu(parent_h).entries@.last().text@ =~= Seq::<char>::empty());
                assert(sf.menu(parent_h).entries@.drop_last() =~= s0.menu(parent_h).entries@);
                assert(sf.windows@ == s0.windows@);
                lemma_windows_carried(s0, sf);
            }
            Ok((parent_h, id))
        },
        other => {
            let mut m = "A separator parent must be a Menu. Got ".to_string();
            let name = other.human_name();
            m.append(name.as_str());
            Err(Error::BadParent(m))
        },
    }
}

/// A template to create menu controls.
///
/// Members:
/// * `text`: the menu text
/// * `parent`: the id of the control to add the menu to
/// * `disabled`: whether the menu starts disabled
pub struct MenuT {
    /// The menu text.
    pub text: String,
    /// The id of the control to add the menu to.
    pub parent: u64,
    /// Whether the menu starts disabled.
    pub disabled: bool,
}

impl Clone for MenuT {
    /// A template clones field by field.
    fn clone(&self) -> (r: Self)
        ensures
            r == *self,
    {
        MenuT { text: self.text.clone(), parent: self.parent, disabled: self.disabled }
    }
}

impl MenuT {
    /// Build the menu this template describes. See [`spec_menu_added_under_window`]
    /// and [`spec_menu_added_under_menu`] for what a success leaves behind.
    pub fn build(&self, ui: &mut Ui) -> (r: Result<Menu, Error>)
        requires
            old(ui).wf(),
            old(ui).system.next_handle < u64::MAX - 1,
        ensures
            final(ui).wf(),
            same_registry(*old(ui), *final(ui)),
            (!old(ui).registered(self.parent) ==> r == Err::<Menu, Error>(Error::KeyNotFound)
                && *final(ui) == *old(ui)),
            ((old(ui).registered(self.parent) && (old(ui).lookup(self.parent) is HMENU_ITEM || old(
                ui,
            ).lookup(self.parent) is HFONT)) ==> (r matches Err(e) && e matches Error::BadParent(_))
                && *final(ui) == *old(ui)),
            (old(ui).registered(self.parent) ==> (old(ui).lookup(self.parent) matches
                AnyHandle::HWND(p) ==> {
                &&& (!old(ui).system.has_window(p) ==> (r matches Err(e) && e is System) && *final(ui) == *old(ui))
                &&& (old(ui).system.has_window(p) ==> (r matches Ok(menu)
                    && spec_menu_added_under_window(
                    *old(ui),
                    *final(ui),
                    p,
                    menu@.0,
                    self.text,
                    self.disabled,
                ) && menu@.1 == AnyHandle::HWND(p)))
            })),
            (old(ui).registered(self.parent) ==> (old(ui).lookup(self.parent) matches
                AnyHandle::HMENU(pm) ==> {
                &&& (!old(ui).system.has_menu(pm) ==> (r matches Err(e) && e is System) && *final(ui) == *old(ui))
                &&& (old(ui).system.has_menu(pm) ==> (r matches Ok(menu)
                    && spec_menu_added_under_menu(
                    *old(ui),
                    *final(ui),
                    pm,
                    menu@.0,
                    self.text,
                    self.disabled,
                ) && menu@.1 == AnyHandle::HMENU(pm)))
            })),
    {
        match build_menu(ui, self) {
            Ok((h, parent)) => Ok(Menu { handle: h, parent }),
            Err(e) => Err(e),
        }
    }
}

/// A menu control, owning the menu handle its template built and remembering
/// the parent it hangs under.
#[derive(Debug)]
pub struct Menu {
    handle: u64,
    parent: AnyHandle,
}

impl View for Menu {
    type V = (u64, AnyHandle);

    /// A menu is known by the handle it owns and the parent it hangs under.
    closed spec fn view(&self) -> (u64, AnyHandle) {
        (self.handle, self.parent)
    }
}

impl Menu {
    /// Whether the menu is enabled under its parent.
    pub fn get_enabled(&self, ui: &Ui) -> (r: bool)
        requires
            ui.wf(),
        ensures
            r == spec_menu_enabled(ui.system, self@.0, self@.1),
    {
        is_menu_enabled(&ui.system, self.handle, &self.parent)
    }

    /// Enable or disable the menu under its parent.
    pub fn set_enabled(&self, ui: &mut Ui, enabled: bool)
        requires
            old(ui).wf(),
        ensures
            final(ui).wf(),
            same_registry(*old(ui), *final(ui)),
            ({
                let t = spec_resolved_menu(old(ui).system, self@.1);
                (t is None || !old(ui).system.has_menu(t->Some_0) || first_open_idx(
                    old(ui).system.menu(t->Some_0).entries@,
                    self@.0,
                ) < 0) ==> final(ui).system == old(ui).system
            }),
            ({
                let t = spec_resolved_menu(old(ui).system, self@.1);
                (t matches Some(m) ==> ((old(ui).system.has_menu(m) && first_open_idx(
                    old(ui).system.menu(m).entries@,
                    self@.0,
                ) >= 0) ==> spec_entry_enabled_set(
                    old(ui).system,
                    final(ui).system,
                    m,
                    first_open_idx(old(ui).system.menu(m).entries@, self@.0),
                    enabled,
                )))
            }),
    {
        enable_menu(&mut ui.system, self.handle, &self.parent, enabled);
    }

    /// The handle the control owns, tagged as a menu handle.
    pub fn handle(&self) -> (r: AnyHandle)
        ensures
            r == AnyHandle::HMENU(self@.0),
    {
        AnyHandle::HMENU(self.handle)
    }

    /// What kind of control this is.
    pub fn control_type(&self) -> (r: ControlType)
        ensures
            r == ControlType::Menu,
    {
        ControlType::Menu
    }

    /// The direct children of the menu, in entry order.
    pub fn children(&self, ui: &Ui) -> (r: Vec<AnyHandle>)
        requires
            ui.wf(),
        ensures
            (!ui.system.has_menu(self@.0) ==> r@.len() == 0),
            (ui.system.has_menu(self@.0) ==> r@.len() == ui.system.menu(self@.0).entries@.len() && (
            forall|k: int|
                0 <= k < r@.len() ==> r@[k] == spec_child_handle(
                    self@.0,
                    ui.system.menu(self@.0).entries@[k],
                ))),
    {
        list_menu_children(&ui.system, self.handle)
    }

    /// Detach the menu from its parent and destroy it. The wrapper keeps its
    /// (now dead) handle; handles are never reused.
    pub fn free(&mut self, ui: &mut Ui)
        requires
            old(ui).wf(),
        ensures
            final(ui).wf(),
            same_registry(*old(ui), *final(ui)),
            *final(self) == *old(self),
            !final(ui).system.has_menu(old(self)@.0),
            (forall|h2: u64|
                h2 != old(self)@.0 ==> final(ui).system.has_menu(h2) == old(ui).system.has_menu(
                    h2,
                )),
            final(ui).system.windows@.len() == old(ui).system.windows@.len(),
            (forall|k: int|
                0 <= k < old(ui).system.windows@.len() ==> (#[trigger] final(ui).system.windows@[k]) == (if old(ui).system.windows@[k].menubar == Some(
                    old(self)@.0,
                ) {
                    (Window { menubar: None, ..old(ui).system.windows@[k] })
                } else {
                    old(ui).system.windows@[k]
                })),
            ({
                let h = old(self)@.0;
                let t = spec_resolved_menu(old(ui).system, old(self)@.1);
                &&& (forall|h2: u64|
                    h2 != h && Some(h2) != t && old(ui).system.has_menu(h2) ==> final(ui).system.menu(h2) == old(ui).system.menu(h2))
                &&& (t matches Some(tm) ==> ((tm != h && old(ui).system.has_menu(tm)
                    && first_open_idx(old(ui).system.menu(tm).entries@, h) >= 0) ==> final(ui).system.menu(tm).entries@ == old(ui).system.menu(tm).entries@.remove(
                    first_open_idx(old(ui).system.menu(tm).entries@, h),
                )))
                &&& (t matches Some(tm) ==> ((tm != h && old(ui).system.has_menu(tm)
                    && first_open_idx(old(ui).system.menu(tm).entries@, h) < 0) ==> final(ui).system.menu(tm) == old(ui).system.menu(tm)))
            }),
            final(ui).system.next_handle == old(ui).system.next_handle,
            final(ui).system.next_menu_item_id == old(ui).system.next_menu_item_id,
            final(ui).system.focus == old(ui).system.focus,
    {
        remove_menu_from_parent(&mut ui.system, self.handle, &self.parent);
        ui.system.destroy_menu(self.handle);
    }
}

/// A template to create a context menu: the menu that appears when the user
/// right-clicks a control. It has no members.
pub struct ContextMenuT;

impl Clone for ContextMenuT {
    /// The template has no fields to clone.
    fn clone(&self) -> (r: Self)
        ensures
            r == *self,
    {
        ContextMenuT
    }
}

impl ContextMenuT {
    /// Build a context menu: a fresh popup menu owned by the hidden message
    /// window. Never fails.
    pub fn build(&self, ui: &mut Ui) -> (r: Result<ContextMenu, Error>)
        requires
            old(ui).wf(),
            old(ui).system.next_handle < u64::MAX,
        ensures
            final(ui).wf(),
            same_registry(*old(ui), *final(ui)),
            (r matches Ok(menu) && {
                let h = menu@.0;
                &&& menu@.1 == old(ui).message_window
                &&& h == old(ui).system.next_handle
                &&& !old(ui).system.has_menu(h)
                &&& !old(ui).system.has_window(h)
                &&& spec_fresh_menu(final(ui).system, h, true)
                &&& final(ui).system.windows@ == old(ui).system.windows@
                &&& (forall|h2: u64|
                    h2 != h ==> final(ui).system.has_menu(h2) == old(ui).system.has_menu(h2))
                &&& (forall|h2: u64|
                    h2 != h && old(ui).system.has_menu(h2) ==> final(ui).system.menu(h2) == old(
                        ui,
                    ).system.menu(h2))
                &&& final(ui).system.next_menu_item_id == old(ui).system.next_menu_item_id
            }),
    {
        match build_context_menu(ui) {
            Ok((h, parent)) => Ok(ContextMenu { handle: h, parent }),
            Err(e) => Err(e),
        }
    }
}

/// A context menu control, owning the popup menu handle its template built
/// and remembering the window that owns the popup.
#[derive(Debug)]
pub struct ContextMenu {
    handle: u64,
    parent: u64,
}

impl View for ContextMenu {
    type V = (u64, u64);

    /// A context menu is known by the menu handle it owns and the window that
    /// owns the popup.
    closed spec fn view(&self) -> (u64, u64) {
        (self.handle, self.parent)
    }
}

impl ContextMenu {
    /// Show the menu at the given absolute screen position: left- and
    /// top-aligned, tracking the right mouse button, without animation.
    pub fn pop_at(&self, ui: &mut Ui, x: i32, y: i32)
        requires
            old(ui).wf(),
        ensures
            final(ui).wf(),
            same_registry(*old(ui), *final(ui)),
            (!old(ui).system.has_menu(self@.0) ==> final(ui).system == old(ui).system),
            (old(ui).system.has_menu(self@.0) ==> final(ui).system.popup == Some(
                (TrackedPopup {
                    menu: self@.0,
                    x: x,
                    y: y,
                    owner: self@.1,
                    flags: spec_popup_flags(),
                }),
            ) && final(ui).system.windows@ == old(ui).system.windows@
                && final(ui).system.menus@ == old(ui).system.menus@
                && final(ui).system.next_handle == old(ui).system.next_handle
                && final(ui).system.next_menu_item_id == old(ui).system.next_menu_item_id
                && final(ui).system.focus == old(ui).system.focus),
    {
        let flags = TPM_NOANIMATION | TPM_RIGHTBUTTON | TPM_LEFTALIGN | TPM_TOPALIGN;
        track_popup_menu_ex(&mut ui.system, self.handle, flags, x, y, self.parent);
    }

    /// The handle the control owns, tagged as a menu handle.
    pub fn handle(&self) -> (r: AnyHandle)
        ensures
            r == AnyHandle::HMENU(self@.0),
    {
        AnyHandle::HMENU(self.handle)
    }

    /// What kind of control this is.
    pub fn control_type(&self) -> (r: ControlType)
        ensures
            r == ControlType::Menu,
    {
        ControlType::Menu
    }

    /// The direct children of the menu, in entry order.
    pub fn children(&self, ui: &Ui) -> (r: Vec<AnyHandle>)
        requires
            ui.wf(),
        ensures
            (!ui.system.has_menu(self@.0) ==> r@.len() == 0),
            (ui.system.has_menu(self@.0) ==> r@.len() == ui.system.menu(self@.0).entries@.len() && (
            forall|k: int|
                0 <= k < r@.len() ==> r@[k] == spec_child_handle(
                    self@.0,
                    ui.system.menu(self@.0).entries@[k],
                ))),
    {
        list_menu_children(&ui.system, self.handle)
    }

    /// Destroy the menu. The wrapper keeps its (now dead) handle; handles are
    /// never reused.
    pub fn free(&mut self, ui: &mut Ui)
        requires
            old(ui).wf(),
        ensures
            final(ui).wf(),
            same_registry(*old(ui), *final(ui)),
            *final(self) == *old(self),
            !final(ui).system.has_menu(old(self)@.0),
            (old(ui).system.has_menu(old(self)@.0) ==> final(ui).system.menus@
                == old(ui).system.menus@.remove(old(ui).system.menu_index(old(self)@.0))),
            (!old(ui).system.has_menu(old(self)@.0) ==> final(ui).system.menus@
                == old(ui).system.menus@),
            (forall|h2: u64|
                h2 != old(self)@.0 ==> final(ui).system.has_menu(h2) == old(ui).system.has_menu(
                    h2,
                )),
            (forall|h2: u64|
                h2 != old(self)@.0 && old(ui).system.has_menu(h2) ==> final(ui).system.menu(h2)
                    == old(ui).system.menu(h2)),
            final(ui).system.windows@.len() == old(ui).system.windows@.len(),
            (forall|k: int|
                0 <= k < old(ui).system.windows@.len() ==> (#[trigger] final(ui).system.windows@[k]) == (if old(ui).system.windows@[k].menubar == Some(
                    old(self)@.0,
                ) {
                    (Window { menubar: None, ..old(ui).system.windows@[k] })
                } else {
                    old(ui).system.windows@[k]
                })),
            final(ui).system.next_handle == old(ui).system.next_handle,
            final(ui).system.next_menu_item_id == old(ui).system.next_menu_item_id,
            final(ui).system.focus == old(ui).system.focus,
    {
        ui.system.destroy_menu(self.handle);
    }
}

/// A template to create menu items.
///
/// Members:
/// * `text`: the item text
/// * `parent`: the id of the control to add the item to
/// * `disabled`: whether the item starts disabled
pub struct MenuItemT {
    /// The item text.
    pub text: String,
    /// The id of the control to add the item to.
    pub parent: u64,
    /// Whether the item starts disabled.
    pub disabled: bool,
}

impl Clone for MenuItemT {
    /// A template clones field by field.
    fn clone(&self) -> (r: Self)
        ensures
            r == *self,
    {
        MenuItemT { text: self.text.clone(), parent: self.parent, disabled: self.disabled }
    }
}

impl MenuItemT {
    /// Build the menu item this template describes. On success the wrapper
    /// names the menu the item joined and the command id it was given, the
    /// next one the global counter hands out.
    pub fn build(&self, ui: &mut Ui) -> (r: Result<MenuItem, Error>)
        requires
            old(ui).wf(),
            old(ui).system.next_handle < u64::MAX,
            old(ui).system.next_menu_item_id < u32::MAX,
        ensures
            final(ui).wf(),
            same_registry(*old(ui), *final(ui)),
            (!old(ui).registered(self.parent) ==> r == Err::<MenuItem, Error>(Error::KeyNotFound)
                && *final(ui) == *old(ui)),
            ((old(ui).registered(self.parent) && (old(ui).lookup(self.parent) is HMENU_ITEM || old(
                ui,
            ).lookup(self.parent) is HFONT)) ==> (r matches Err(e) && e matches Error::BadParent(_))
                && *final(ui) == *old(ui)),
            (old(ui).registered(self.parent) ==> (old(ui).lookup(self.parent) matches
                AnyHandle::HWND(p) ==> {
                &&& (!old(ui).system.has_window(p) ==> (r matches Err(e) && e is System) && *final(ui) == *old(ui))
                &&& (old(ui).system.has_window(p) ==> (r matches Ok(item) && {
                    &&& item@.1 == old(ui).system.next_menu_item_id + 1
                    &&& final(ui).system.next_menu_item_id == item@.1
                    &&& final(ui).system.has_window(p)
                    &&& final(ui).system.window(p).menubar == Some(item@.0)
                    &&& final(ui).system.has_menu(item@.0)
                    &&& (old(ui).system.window(p).menubar matches Some(mb0) ==> item@.0 == mb0
                        && final(ui).system.menu(item@.0).entries@ == old(ui).system.menu(
                        mb0,
                    ).entries@.push(spec_item_entry(item@.1, self.text, self.disabled)))
                    &&& (old(ui).system.window(p).menubar is None ==> !old(ui).system.has_menu(
                        item@.0,
                    ) && final(ui).system.menu(item@.0).entries@ =~= seq![
                        spec_item_entry(item@.1, self.text, self.disabled),
                    ])
                }))
            })),
            (old(ui).registered(self.parent) ==> (old(ui).lookup(self.parent) matches
                AnyHandle::HMENU(pm) ==> {
                &&& (!old(ui).system.has_menu(pm) ==> (r matches Err(e) && e is System) && *final(ui) == *old(ui))
                &&& (old(ui).system.has_menu(pm) ==> (r matches Ok(item) && item@.0 == pm
                    && spec_item_added(*old(ui), *final(ui), pm, item@.1, self.text, self.disabled)))
            })),
    {
        match build_menu_item(ui, self) {
            Ok((parent, uid)) => Ok(MenuItem { parent, unique_id: uid }),
            Err(e) => Err(e),
        }
    }
}

/// A menu item control, named by the menu it joined and its command id.
#[derive(Debug)]
pub struct MenuItem {
    parent: u64,
    unique_id: u32,
}

impl View for MenuItem {
    type V = (u64, u32);

    /// A menu item is known by the menu holding it and its command id.
    closed spec fn view(&self) -> (u64, u32) {
        (self.parent, self.unique_id)
    }
}

impl MenuItem {
    /// Whether the item is enabled.
    pub fn get_enabled(&self, ui: &Ui) -> (r: bool)
        requires
            ui.wf(),
        ensures
            r == spec_menuitem_enabled(ui.system, self@.0, None, Some(self@.1)),
    {
        is_menuitem_enabled(&ui.system, self.parent, None, Some(self.unique_id))
    }

    /// Enable or disable the item.
    pub fn set_enabled(&self, ui: &mut Ui, enabled: bool)
        requires
            old(ui).wf(),
        ensures
            final(ui).wf(),
            same_registry(*old(ui), *final(ui)),
            ((!old(ui).system.has_menu(self@.0) || !(0 <= spec_menuitem_idx(
                old(ui).system.menu(self@.0).entries@,
                None,
                Some(self@.1),
            ) < old(ui).system.menu(self@.0).entries@.len())) ==> final(ui).system == old(
                ui,
            ).system),
            ((old(ui).system.has_menu(self@.0) && 0 <= spec_menuitem_idx(
                old(ui).system.menu(self@.0).entries@,
                None,
                Some(self@.1),
            ) < old(ui).system.menu(self@.0).entries@.len()) ==> spec_entry_enabled_set(
                old(ui).system,
                final(ui).system,
                self@.0,
                spec_menuitem_idx(old(ui).system.menu(self@.0).entries@, None, Some(self@.1)),
                enabled,
            )),
    {
        enable_menuitem(&mut ui.system, self.parent, None, Some(self.unique_id), enabled);
    }

    /// The menu holding the item and the item's command id, tagged as a menu
    /// item handle.
    pub fn handle(&self) -> (r: AnyHandle)
        ensures
            r == AnyHandle::HMENU_ITEM(self@.0, self@.1),
    {
        AnyHandle::HMENU_ITEM(self.parent, self.unique_id)
    }

    /// What kind of control this is.
    pub fn control_type(&self) -> (r: ControlType)
        ensures
            r == ControlType::MenuItem,
    {
        ControlType::MenuItem
    }

    /// Detach the item from the menu holding it.
    pub fn free(&mut self, ui: &mut Ui)
        requires
            old(ui).wf(),
        ensures
            final(ui).wf(),
            same_registry(*old(ui), *final(ui)),
            *final(self) == *old(self),
            ((!old(ui).system.has_menu(old(self)@.0) || first_id_idx(
                old(ui).system.menu(old(self)@.0).entries@,
                old(self)@.1,
            ) < 0) ==> final(ui).system == old(ui).system),
            ((old(ui).system.has_menu(old(self)@.0) && first_id_idx(
                old(ui).system.menu(old(self)@.0).entries@,
                old(self)@.1,
            ) >= 0) ==> spec_entry_removed(
                old(ui).system,
                final(ui).system,
                old(self)@.0,
                first_id_idx(old(ui).system.menu(old(self)@.0).entries@, old(self)@.1),
            )),
    {
        remove_menu_item_from_parent(&mut ui.system, self.parent, self.unique_id);
    }
}

/// A template to create a menu item separator.
///
/// Member:
/// * `parent`: the id of the menu to add the separator to
pub struct SeparatorT {
    /// The id of the menu to add the separator to.
    pub parent: u64,
}

impl Clone for SeparatorT {
    /// A template clones field by field.
    fn clone(&self) -> (r: Self)
        ensures
            r == *self,
    {
        SeparatorT { parent: self.parent }
    }
}

impl SeparatorT {
    /// Build the separator this template describes. On success the wrapper
    /// names the menu the separator joined and the command id it was given,
    /// the next one the global counter hands out.
    pub fn build(&self, ui: &mut Ui) -> (r: Result<Separator, Error>)
        requires
            old(ui).wf(),
            old(ui).system.next_menu_item_id < u32::MAX,
        ensures
            final(ui).wf(),
            same_registry(*old(ui), *final(ui)),
            (!old(ui).registered(self.parent) ==> r == Err::<Separator, Error>(Error::KeyNotFound)
                && *final(ui) == *old(ui)),
            ((old(ui).registered(self.parent) && !(old(ui).lookup(self.parent) is HMENU)) ==> (
            r matches Err(e) && e matches Error::BadParent(_)) && *final(ui) == *old(ui)),
            (old(ui).registered(self.parent) ==> (old(ui).lookup(self.parent) matches
                AnyHandle::HMENU(pm) ==> {
                &&& (!old(ui).system.has_menu(pm) ==> (r matches Err(e) && e is System) && *final(ui) == *old(ui))
                &&& (old(ui).system.has_menu(pm) ==> (r matches Ok(sep) && sep@.0 == pm
                    && spec_separator_added(*old(ui), *final(ui), pm, sep@.1)))
            })),
    {
        match build_separator(ui, self) {
            Ok((parent, uid)) => Ok(Separator { parent, unique_id: uid }),
            Err(e) => Err(e),
        }
    }
}

/// A separator control, named by the menu it joined and its command id.
#[derive(Debug)]
pub struct Separator {
    parent: u64,
    unique_id: u32,
}

impl View for Separator {
    type V = (u64, u32);

    /// A separator is known by the menu holding it and its command id.
    closed spec fn view(&self) -> (u64, u32) {
        (self.parent, self.unique_id)
    }
}

impl Separator {
    /// The menu holding the separator and its command id, tagged as a menu
    /// item handle.
    pub fn handle(&self) -> (r: AnyHandle)
        ensures
            r == AnyHandle::HMENU_ITEM(self@.0, self@.1),
    {
        AnyHandle::HMENU_ITEM(self.parent, self.unique_id)
    }

    /// What kind of control this is.
    pub fn control_type(&self) -> (r: ControlType)
        ensures
            r == ControlType::MenuItem,
    {
        ControlType::MenuItem
    }

    /// Detach the separator from the menu holding it.
    pub fn free(&mut self, ui: &mut Ui)
        requires
            old(ui).wf(),
        ensures
            final(ui).wf(),
            same_registry(*old(ui), *final(ui)),
            *final(self) == *old(self),
            ((!old(ui).system.has_menu(old(self)@.0) || first_id_idx(
                old(ui).system.menu(old(self)@.0).entries@,
                old(self)@.1,
            ) < 0) ==> final(ui).system == old(ui).system),
            ((old(ui).system.has_menu(old(self)@.0) && first_id_idx(
                old(ui).system.menu(old(self)@.0).entries@,
                old(self)@.1,
            ) >= 0) ==> spec_entry_removed(
                old(ui).system,
                final(ui).system,
                old(self)@.0,
                first_id_idx(old(ui).system.menu(old(self)@.0).entries@, old(self)@.1),
            )),
    {
        remove_menu_item_from_parent(&mut ui.system, self.parent, self.unique_id);
    }
}

} // verus!
