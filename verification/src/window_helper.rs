//! Window-side helpers: creating a native window from build parameters,
//! resolving parent and font ids through the `Ui` registry, and reading and
//! writing the state of a built window.

use vstd::prelude::*;

use crate::controls::AnyHandle;
use crate::defs::{spec_with_bit, with_bit, WS_DISABLED, WS_VISIBLE};
use crate::error::Error;
use crate::system::{System, Window};
use crate::ui::Ui;

verus! {

/// Everything the native window builder needs.
pub struct WindowParams {
    /// The initial window text.
    pub title: String,
    /// The window class to create from.
    pub class_name: String,
    /// Top-left corner, relative to the parent.
    pub position: (i32, i32),
    /// Width and height.
    pub size: (u32, u32),
    /// The window style bits.
    pub flags: u32,
    /// The extended style bits; `None` stands for the class default, `0`.
    pub ex_flags: Option<u32>,
    /// The parent window's handle; `0` for a top-level window.
    pub parent: u64,
}

/// Whether window creation succeeds: the parent must be a live window, or
/// zero for a window that is not a child.
pub open spec fn spec_can_create(sys: System, params: WindowParams) -> bool {
    sys.has_window(params.parent) || (params.parent == 0 && params.flags
        & crate::defs::WS_CHILD == 0)
}

/// One window changed, everything else as it was.
pub open spec fn updated_window(pre: System, post: System, h: u64, w: Window) -> bool {
    &&& post.wf()
    &&& post.has_window(h)
    &&& post.window(h) == w
    &&& post.windows@.len() == pre.windows@.len()
    &&& (forall|h2: u64| post.has_window(h2) == pre.has_window(h2))
    &&& (forall|h2: u64| h2 != h && pre.has_window(h2) ==> post.window(h2) == pre.window(h2))
    &&& post.menus@ == pre.menus@
    &&& post.next_handle == pre.next_handle
    &&& post.next_menu_item_id == pre.next_menu_item_id
    &&& post.focus == pre.focus
    &&& post.popup == pre.popup
}

/// Create a native window from the parameters. Fails exactly when the
/// parameters name a parent that is not live (a child window cannot be
/// created without one).
pub fn build_window(sys: &mut System, params: WindowParams) -> (r: Result<u64, String>)
    requires
        old(sys).wf(),
        old(sys).next_handle < u64::MAX,
    ensures
        final(sys).wf(),
        (!spec_can_create(*old(sys), params) ==> (r matches Err(m) && m@
            == "window creation failed"@) && *final(sys) == *old(sys)),
        (spec_can_create(*old(sys), params) ==> (r matches Ok(h) && h == old(sys).next_handle
            && !old(sys).has_window(h) && !old(sys).has_menu(h) && final(sys).next_handle == old(sys).next_handle + 1 && final(sys).windows@ == old(sys).windows@.push(
            (Window {
                handle: h,
                class_name: params.class_name,
                title: params.title,
                position: params.position,
                size: params.size,
                style: params.flags,
                ex_style: (match params.ex_flags {
                    Some(x) => x,
                    None => 0u32,
                }),
                parent: params.parent,
                font: None,
                menubar: None,
                text_limit: 0,
            }),
        ) && final(sys).has_window(h) && final(sys).window(h) == final(sys).windows@.last()
            && final(sys).menus@ == old(sys).menus@ && final(sys).next_menu_item_id == old(sys).next_menu_item_id
            && final(sys).focus == old(sys).focus && final(sys).popup == old(sys).popup && (
        forall|h2: u64| h2 != h ==> final(sys).has_window(h2) == old(sys).has_window(h2)) && (
        forall|h2: u64|
            h2 != h && old(sys).has_window(h2) ==> final(sys).window(h2) == old(sys).window(h2))
            && (forall|h2: u64| final(sys).has_menu(h2) == old(sys).has_menu(h2)) && (
        forall|h2: u64|
            old(sys).has_menu(h2) ==> final(sys).menu(h2) == old(sys).menu(h2)))),
{
    let can = if params.parent == 0 {
        proof {
            assert forall|i: int|
                0 <= i < sys.windows@.len() implies (#[trigger] sys.windows@[i]).handle != 0u64 by {}
            assert(!sys.has_window(0u64));
        }
        params.flags & crate::defs::WS_CHILD == 0
    } else {
        sys.find_window(params.parent).is_some()
    };
    if !can {
        return Err("window creation failed".to_string());
    }
    let ex_style = match params.ex_flags {
        Some(x) => x,
        None => 0u32,
    };
    let h = sys.create_window_raw(
        params.class_name,
        params.title,
        params.position,
        params.size,
        params.flags,
        ex_style,
        params.parent,
    );
    Ok(h)
}

/// Resolve `id` to a window handle: the id must be registered and must name
/// a window. The message is carried into the error when it does not.
pub fn handle_of_window(ui: &Ui, id: u64, msg: &str) -> (r: Result<u64, Error>)
    requires
        ui.wf(),
    ensures
        (!ui.registered(id) ==> r == Err::<u64, Error>(Error::KeyNotFound)),
        (ui.registered(id) && !(ui.lookup(id) is HWND) ==> (r matches Err(e) && e matches
            Error::BadParent(m) && m@ == msg@)),
        (ui.registered(id) && ui.lookup(id) is HWND ==> r == Ok::<u64, Error>(
            ui.lookup(id)->HWND_0,
        )),
    {
    match ui.handle_of(id) {
        Ok(AnyHandle::HWND(h)) => Ok(h),
        Ok(_) => Err(Error::BadParent(msg.to_string())),
        Err(e) => Err(e),
    }
}

/// Resolve `id` to a font handle: the id must be registered and must name a
/// font resource. The message is carried into the error when it does not.
pub fn handle_of_font(ui: &Ui, id: u64, msg: &str) -> (r: Result<u64, Error>)
    requires
        ui.wf(),
    ensures
        (!ui.registered(id) ==> r == Err::<u64, Error>(Error::KeyNotFound)),
        (ui.registered(id) && !(ui.lookup(id) is HFONT) ==> (r matches Err(e) && e matches
            Error::BadResource(m) && m@ == msg@)),
        (ui.registered(id) && ui.lookup(id) is HFONT ==> r == Ok::<u64, Error>(
            ui.lookup(id)->HFONT_0,
        )),
    {
    match ui.handle_of(id) {
        Ok(AnyHandle::HFONT(h)) => Ok(h),
        Ok(_) => Err(Error::BadResource(msg.to_string())),
        Err(e) => Err(e),
    }
}

/// Read the text of a window. A dead handle reads as the empty string.
pub fn get_window_text(sys: &System, handle: u64) -> (r: String)
    requires
        sys.wf(),
    ensures
        (sys.has_window(handle) ==> r == sys.window(handle).title),
        (!sys.has_window(handle) ==> r@ =~= Seq::<char>::empty()),
{
    match sys.find_window(handle) {
        Some(i) => {
            proof {
                sys.lemma_win_index(i as int, handle);
            }
            self::clone_title(&sys.windows[i])
        },
        None => {
            let r = "".to_string();
            proof {
                reveal_strlit("");
            }
            r
        },
    }
}

/// Clone a window's title.
fn clone_title(w: &Window) -> (r: String)
    ensures
        r == w.title,
{
    w.title.clone()
}

/// Set the text of a window. A dead handle is left alone.
pub fn set_window_text(sys: &mut System, handle: u64, text: &str)
    requires
        old(sys).wf(),
    ensures
        final(sys).wf(),
        (!old(sys).has_window(handle) ==> *final(sys) == *old(sys)),
        (old(sys).has_window(handle) ==> updated_window(
            *old(sys),
            *final(sys),
            handle,
            (Window { title: final(sys).window(handle).title, ..old(sys).window(handle) }),
        ) && final(sys).window(handle).title@ == text@),
{
    match sys.find_window(handle) {
        Some(i) => {
            let mut w = sys.windows.remove(i);
            w.title = text.to_string();
            sys.windows.insert(i, w);
            proof {
                let pre = *old(sys);
                let post = *sys;
                pre.lemma_win_index(i as int, handle);
                assert(post.windows@ =~= pre.windows@.update(i as int, post.windows@[i as int]));
                System::lemma_wf_after_window_update(pre, post, i as int);
            }
        },
        None => {},
    }
}

/// Read the visibility style bit of a window. A dead handle reads as hidden.
pub fn get_window_visibility(sys: &System, handle: u64) -> (r: bool)
    requires
        sys.wf(),
    ensures
        (sys.has_window(handle) ==> r == (sys.window(handle).style & WS_VISIBLE != 0)),
        (!sys.has_window(handle) ==> r == false),
{
    match sys.find_window(handle) {
        Some(i) => {
            proof {
                sys.lemma_win_index(i as int, handle);
            }
            sys.windows[i].style & WS_VISIBLE != 0
        },
        None => false,
    }
}

/// Show or hide a window: turn its visibility style bit on or off. A dead
/// handle is left alone.
pub fn set_window_visibility(sys: &mut System, handle: u64, visible: bool)
    requires
        old(sys).wf(),
    ensures
        final(sys).wf(),
        (!old(sys).has_window(handle) ==> *final(sys) == *old(sys)),
        (old(sys).has_window(handle) ==> updated_window(
            *old(sys),
            *final(sys),
            handle,
            (Window {
                style: spec_with_bit(old(sys).window(handle).style, WS_VISIBLE, visible),
                ..old(sys).window(handle)
            }),
        )),
{
    match sys.find_window(handle) {
        Some(i) => {
            let mut w = sys.windows.remove(i);
            w.style = with_bit(w.style, WS_VISIBLE, visible);
            sys.windows.insert(i, w);
            proof {
                let pre = *old(sys);
                let post = *sys;
                pre.lemma_win_index(i as int, handle);
                assert(post.windows@ =~= pre.windows@.update(i as int, post.windows@[i as int]));
                System::lemma_wf_after_window_update(pre, post, i as int);
            }
        },
        None => {},
    }
}

/// Read the position of a window. A dead handle reads as the origin.
pub fn get_window_position(sys: &System, handle: u64) -> (r: (i32, i32))
    requires
        sys.wf(),
    ensures
        (sys.has_window(handle) ==> r == sys.window(handle).position),
        (!sys.has_window(handle) ==> r == (0i32, 0i32)),
{
    match sys.find_window(handle) {
        Some(i) => {
            proof {
                sys.lemma_win_index(i as int, handle);
            }
            sys.windows[i].position
        },
        None => (0, 0),
    }
}

/// Move a window. A dead handle is left alone.
pub fn set_window_position(sys: &mut System, handle: u64, x: i32, y: i32)
    requires
        old(sys).wf(),
    ensures
        final(sys).wf(),
        (!old(sys).has_window(handle) ==> *final(sys) == *old(sys)),
        (old(sys).has_window(handle) ==> updated_window(
            *old(sys),
            *final(sys),
            handle,
            (Window { position: (x, y), ..old(sys).window(handle) }),
        )),
{
    match sys.find_window(handle) {
        Some(i) => {
            let mut w = sys.windows.remove(i);
            w.position = (x, y);
            sys.windows.insert(i, w);
            proof {
                let pre = *old(sys);
                let post = *sys;
                pre.lemma_win_index(i as int, handle);
                assert(post.windows@ =~= pre.windows@.update(i as int, post.windows@[i as int]));
                System::lemma_wf_after_window_update(pre, post, i as int);
            }
        },
        None => {},
    }
}

/// Read the size of a window. A dead handle reads as empty.
pub fn get_window_size(sys: &System, handle: u64) -> (r: (u32, u32))
    requires
        sys.wf(),
    ensures
        (sys.has_window(handle) ==> r == sys.window(handle).size),
        (!sys.has_window(handle) ==> r == (0u32, 0u32)),
{
    match sys.find_window(handle) {
        Some(i) => {
            proof {
                sys.lemma_win_index(i as int, handle);
            }
            sys.windows[i].size
        },
        None => (0, 0),
    }
}

/// Resize a window. The `redraw` switch only asks for a repaint, which the
/// model does not track. A dead handle is left alone.
#[allow(unused_variables)]
pub fn set_window_size(sys: &mut System, handle: u64, w: u32, h: u32, redraw: bool)
    requires
        old(sys).wf(),
    ensures
        final(sys).wf(),
        (!old(sys).has_window(handle) ==> *final(sys) == *old(sys)),
        (old(sys).has_window(handle) ==> updated_window(
            *old(sys),
            *final(sys),
            handle,
            (Window { size: (w, h), ..old(sys).window(handle) }),
        )),
{
    match sys.find_window(handle) {
        Some(i) => {
            let mut win = sys.windows.remove(i);
            win.size = (w, h);
            sys.windows.insert(i, win);
            proof {
                let pre = *old(sys);
                let post = *sys;
                pre.lemma_win_index(i as int, handle);
                assert(post.windows@ =~= pre.windows@.update(i as int, post.windows@[i as int]));
                System::lemma_wf_after_window_update(pre, post, i as int);
            }
        },
        None => {},
    }
}

/// Whether a window is enabled: its disabled style bit is off. A dead handle
/// reads as disabled.
pub fn get_window_enabled(sys: &System, handle: u64) -> (r: bool)
    requires
        sys.wf(),
    ensures
        (sys.has_window(handle) ==> r == (sys.window(handle).style & WS_DISABLED == 0)),
        (!sys.has_window(handle) ==> r == false),
{
    match sys.find_window(handle) {
        Some(i) => {
            proof {
                sys.lemma_win_index(i as int, handle);
            }
            sys.windows[i].style & WS_DISABLED == 0
        },
        None => false,
    }
}

/// Enable or disable a window: turn its disabled style bit off or on. A dead
/// handle is left alone.
pub fn set_window_enabled(sys: &mut System, handle: u64, enabled: bool)
    requires
        old(sys).wf(),
    ensures
        final(sys).wf(),
        (!old(sys).has_window(handle) ==> *final(sys) == *old(sys)),
        (old(sys).has_window(handle) ==> updated_window(
            *old(sys),
            *final(sys),
            handle,
            (Window {
                style: spec_with_bit(old(sys).window(handle).style, WS_DISABLED, !enabled),
                ..old(sys).window(handle)
            }),
        )),
{
    match sys.find_window(handle) {
        Some(i) => {
            let mut w = sys.windows.remove(i);
            w.style = with_bit(w.style, WS_DISABLED, !enabled);
            sys.windows.insert(i, w);
            proof {
                let pre = *old(sys);
                let post = *sys;
                pre.lemma_win_index(i as int, handle);
                assert(post.windows@ =~= pre.windows@.update(i as int, post.windows@[i as int]));
                System::lemma_wf_after_window_update(pre, post, i as int);
            }
        },
        None => {},
    }
}

/// Read the style long of a window. A dead handle reads as `0`.
pub fn get_window_long(sys: &System, handle: u64) -> (r: u32)
    requires
        sys.wf(),
    ensures
        (sys.has_window(handle) ==> r == sys.window(handle).style),
        (!sys.has_window(handle) ==> r == 0),
{
    match sys.find_window(handle) {
        Some(i) => {
            proof {
                sys.lemma_win_index(i as int, handle);
            }
            sys.windows[i].style
        },
        None => 0,
    }
}

/// Overwrite the style long of a window. A dead handle is left alone.
pub fn set_window_long(sys: &mut System, handle: u64, style: u32)
    requires
        old(sys).wf(),
    ensures
        final(sys).wf(),
        (!old(sys).has_window(handle) ==> *final(sys) == *old(sys)),
        (old(sys).has_window(handle) ==> updated_window(
            *old(sys),
            *final(sys),
            handle,
            (Window { style: style, ..old(sys).window(handle) }),
        )),
{
    match sys.find_window(handle) {
        Some(i) => {
            let mut w = sys.windows.remove(i);
            w.style = style;
            sys.windows.insert(i, w);
            proof {
                let pre = *old(sys);
                let post = *sys;
                pre.lemma_win_index(i as int, handle);
                assert(post.windows@ =~= pre.windows@.update(i as int, post.windows@[i as int]));
                System::lemma_wf_after_window_update(pre, post, i as int);
            }
        },
        None => {},
    }
}

/// Hand a window the font it should draw with, by raw font handle. The
/// `redraw` switch only asks for a repaint, which the model does not track.
/// A dead handle is left alone.
#[allow(unused_variables)]
pub fn set_window_font_raw(sys: &mut System, handle: u64, font: Option<u64>, redraw: bool)
    requires
        old(sys).wf(),
    ensures
        final(sys).wf(),
        (!old(sys).has_window(handle) ==> *final(sys) == *old(sys)),
        (old(sys).has_window(handle) ==> updated_window(
            *old(sys),
            *final(sys),
            handle,
            (Window { font: font, ..old(sys).window(handle) }),
        )),
{
    match sys.find_window(handle) {
        Some(i) => {
            let mut w = sys.windows.remove(i);
            w.font = font;
            sys.windows.insert(i, w);
            proof {
                let pre = *old(sys);
                let post = *sys;
                pre.lemma_win_index(i as int, handle);
                assert(post.windows@ =~= pre.windows@.update(i as int, post.windows@[i as int]));
                System::lemma_wf_after_window_update(pre, post, i as int);
            }
        },
        None => {},
    }
}

/// Attach a menu to a window as its menu bar. The window and the menu must
/// both be live for the native call to take; otherwise nothing changes.
pub fn set_menu(sys: &mut System, handle: u64, menubar: u64)
    requires
        old(sys).wf(),
    ensures
        final(sys).wf(),
        ((old(sys).has_window(handle) && old(sys).has_menu(menubar)) ==> updated_window(
            *old(sys),
            *final(sys),
            handle,
            (Window { menubar: Some(menubar), ..old(sys).window(handle) }),
        )),
        (!(old(sys).has_window(handle) && old(sys).has_menu(menubar)) ==> *final(sys) == *old(
            sys,
        )),
{
    if sys.find_menu(menubar).is_none() {
        return ;
    }
    match sys.find_window(handle) {
        Some(i) => {
            let mut w = sys.windows.remove(i);
            w.menubar = Some(menubar);
            sys.windows.insert(i, w);
            proof {
                let pre = *old(sys);
                let post = *sys;
                pre.lemma_win_index(i as int, handle);
                assert(post.windows@ =~= pre.windows@.update(i as int, post.windows@[i as int]));
                System::lemma_wf_after_window_update(pre, post, i as int);
            }
        },
        None => {},
    }
}

/// Set a window's text limit (the `EM_LIMITTEXT` message). A dead handle is
/// left alone.
pub fn set_text_limit(sys: &mut System, handle: u64, limit: u32)
    requires
        old(sys).wf(),
    ensures
        final(sys).wf(),
        (!old(sys).has_window(handle) ==> *final(sys) == *old(sys)),
        (old(sys).has_window(handle) ==> updated_window(
            *old(sys),
            *final(sys),
            handle,
            (Window { text_limit: limit, ..old(sys).window(handle) }),
        )),
{
    match sys.find_window(handle) {
        Some(i) => {
            let mut w = sys.windows.remove(i);
            w.text_limit = limit;
            sys.windows.insert(i, w);
            proof {
                let pre = *old(sys);
                let post = *sys;
                pre.lemma_win_index(i as int, handle);
                assert(post.windows@ =~= pre.windows@.update(i as int, post.windows@[i as int]));
                System::lemma_wf_after_window_update(pre, post, i as int);
            }
        },
        None => {},
    }
}

/// Read a window's text limit (the `EM_GETLIMITTEXT` message). A dead handle
/// reads as `0`.
pub fn get_text_limit(sys: &System, handle: u64) -> (r: u32)
    requires
        sys.wf(),
    ensures
        (sys.has_window(handle) ==> r == sys.window(handle).text_limit),
        (!sys.has_window(handle) ==> r == 0),
{
    match sys.find_window(handle) {
        Some(i) => {
            proof {
                sys.lemma_win_index(i as int, handle);
            }
            sys.windows[i].text_limit
        },
        None => 0,
    }
}

/// Give a window the keyboard focus. A dead handle is left alone.
pub fn set_focus(sys: &mut System, handle: u64)
    requires
        old(sys).wf(),
    ensures
        final(sys).wf(),
        (!old(sys).has_window(handle) ==> *final(sys) == *old(sys)),
        (old(sys).has_window(handle) ==> final(sys).focus == Some(handle) && final(sys).windows@
            == old(sys).windows@ && final(sys).menus@ == old(sys).menus@ && final(sys).next_handle
            == old(sys).next_handle && final(sys).next_menu_item_id == old(sys).next_menu_item_id
            && final(sys).popup == old(sys).popup),
{
    match sys.find_window(handle) {
        Some(_) => {
            sys.focus = Some(handle);
            proof {
                assert(sys.windows@ == old(sys).windows@);
                assert(sys.menus@ == old(sys).menus@);
                assert(sys.wf_windows());
                assert(sys.wf_menus());
                assert(sys.wf_menubars());
                assert(sys.wf_menu_ids());
                assert(sys.wf_menu_ids_unique());
            }
        },
        None => {},
    }
}

/// Whether a template's font choice resolves: no font asked for, or the id
/// names a registered font resource.
pub open spec fn spec_font_ok(ui: Ui, f: Option<u64>) -> bool {
    match f {
        None => true,
        Some(fid) => ui.registered(fid) && ui.lookup(fid) is HFONT,
    }
}

/// The raw font handle a resolving template ends up with.
pub open spec fn spec_font_handle(ui: Ui, f: Option<u64>) -> Option<u64> {
    match f {
        None => None,
        Some(fid) => Some(ui.lookup(fid)->HFONT_0),
    }
}

/// A control build added exactly one window, with a fresh handle, and touched
/// nothing else.
pub open spec fn spec_control_window_built(pre: Ui, post: Ui, h: u64) -> bool {
    &&& post.wf()
    &&& h == pre.system.next_handle
    &&& !pre.system.has_window(h)
    &&& !pre.system.has_menu(h)
    &&& post.system.has_window(h)
    &&& post.system.windows@.len() == pre.system.windows@.len() + 1
    &&& (forall|h2: u64| h2 != h ==> post.system.has_window(h2) == pre.system.has_window(h2))
    &&& (forall|h2: u64|
        h2 != h && pre.system.has_window(h2) ==> post.system.window(h2) == pre.system.window(h2))
    &&& post.system.menus@ == pre.system.menus@
    &&& post.system.next_handle == pre.system.next_handle + 1
    &&& post.system.next_menu_item_id == pre.system.next_menu_item_id
    &&& post.system.focus == pre.system.focus
    &&& post.system.popup == pre.system.popup
    &&& post.registry@ == pre.registry@
    &&& post.message_window == pre.message_window
}

/// The registry position holding the font resource `f`.
pub open spec fn spec_font_entry(ui: Ui, f: u64, i: int) -> bool {
    0 <= i < ui.registry@.len() && ui.registry@[i].1 == AnyHandle::HFONT(f)
}

/// Look up which registered id names the font a window draws with: the
/// reverse of `set_window_font`. Returns the first registered id holding the
/// window's font; `None` when the window is dead, has no font, or its font
/// was never registered.
pub fn get_window_font(sys: &System, ui: &Ui, handle: u64) -> (r: Option<u64>)
    requires
        sys.wf(),
        ui.wf(),
    ensures
        ((!sys.has_window(handle) || sys.window(handle).font is None) ==> r is None),
        (sys.has_window(handle) ==> (sys.window(handle).font matches Some(f) ==> (match r {
            Some(id) => exists|i: int|
                spec_font_entry(*ui, f, i) && (#[trigger] ui.registry@[i]).0 == id && (forall|k: int|
                    0 <= k < i ==> !spec_font_entry(*ui, f, k)),
            None => forall|i: int| 0 <= i < ui.registry@.len() ==> !spec_font_entry(*ui, f, i),
        }))),
{
    let wi = match sys.find_window(handle) {
        Some(wi) => wi,
        None => {
            return None;
        },
    };
    proof {
        sys.lemma_win_index(wi as int, handle);
    }
    let f = match sys.windows[wi].font {
        Some(f) => f,
        None => {
            return None;
        },
    };
    let mut i: usize = 0;
    while i < ui.registry.len()
        invariant
            i <= ui.registry@.len(),
            sys.wf(),
            sys.has_window(handle),
            sys.window(handle).font == Some(f),
            forall|k: int| 0 <= k < i ==> !spec_font_entry(*ui, f, k),
        decreases ui.registry@.len() - i,
    {
        let is_font = match ui.registry[i].1 {
            AnyHandle::HFONT(fh) => fh == f,
            _ => false,
        };
        if is_font {
            let id = ui.registry[i].0;
            proof {
                assert(spec_font_entry(*ui, f, i as int));
            }
            return Some(id);
        }
        i = i + 1;
    }
    None
}

/// Hand a window the font registered under `f`, or the class default for
/// `None`. The id must name a font resource; the window itself may be dead
/// (the native call is then a lost message and nothing changes).
pub fn set_window_font(ui: &mut Ui, handle: u64, f: Option<u64>) -> (r: Result<(), Error>)
    requires
        old(ui).wf(),
    ensures
        final(ui).wf(),
        final(ui).registry@ == old(ui).registry@,
        final(ui).message_window == old(ui).message_window,
        (match f {
            None => r == Ok::<(), Error>(()),
            Some(fid) => {
                &&& (!old(ui).registered(fid) ==> r == Err::<(), Error>(Error::KeyNotFound)
                    && *final(ui) == *old(ui))
                &&& (old(ui).registered(fid) && !(old(ui).lookup(fid) is HFONT) ==> (r matches Err(
                    e,
                ) && e matches Error::BadResource(_)) && *final(ui) == *old(ui))
                &&& (old(ui).registered(fid) && old(ui).lookup(fid) is HFONT ==> r == Ok::<
                    (),
                    Error,
                >(()))
            },
        }),
        (r == Ok::<(), Error>(()) ==> {
            let fh = (match f {
                None => None,
                Some(fid) => Some(old(ui).lookup(fid)->HFONT_0),
            });
            &&& (!old(ui).system.has_window(handle) ==> final(ui).system == old(ui).system)
            &&& (old(ui).system.has_window(handle) ==> updated_window(
                old(ui).system,
                final(ui).system,
                handle,
                (Window { font: fh, ..old(ui).system.window(handle) }),
            ))
        }),
        (r is Err ==> *final(ui) == *old(ui)),
{
    let font_handle: Option<u64> = match f {
        Some(fid) => {
            match handle_of_font(ui, fid, "The font of a window must be a font resource.") {
                Ok(fh) => Some(fh),
                Err(e) => {
                    return Err(e);
                },
            }
        },
        None => None,
    };
    set_window_font_raw(&mut ui.system, handle, font_handle, true);
    Ok(())
}

} // verus!
