//! The list view control: its template and its handle-owning wrapper.

use vstd::prelude::*;

use crate::controls::{AnyHandle, ControlType};
use crate::defs::{listview_flags, spec_listview_flags, spec_with_bit, WS_DISABLED, WS_VISIBLE};
use crate::error::Error;
use crate::system::Window;
use crate::ui::{same_registry, Ui};
use crate::window_helper::{
    build_window, get_window_enabled, get_window_font, get_window_position, get_window_size,
    get_window_text, get_window_visibility, handle_of_font, handle_of_window, set_focus,
    set_window_enabled, set_window_font, set_window_font_raw, set_window_position, set_window_size,
    set_window_text, set_window_visibility, spec_control_window_built, spec_font_handle,
    spec_font_ok, updated_window, WindowParams,
};

verus! {

/// A template that creates a list view.
///
/// Members:
/// * `position`: the initial position of the control
/// * `size`: the initial size of the control
/// * `visible`: whether the control starts visible
/// * `disabled`: whether the control starts disabled
/// * `parent`: the id of the parent, which must be a window-like control
/// * `font`: the id of the font resource to draw with, if any
pub struct ListViewT {
    /// The initial position of the control.
    pub position: (i32, i32),
    /// The initial size of the control.
    pub size: (u32, u32),
    /// Whether the control starts disabled.
    pub disabled: bool,
    /// Whether the control starts visible.
    pub visible: bool,
    /// The id of the parent control.
    pub parent: u64,
    /// The id of the font resource, if any.
    pub font: Option<u64>,
}

impl Clone for ListViewT {
    /// A template clones field by field.
    fn clone(&self) -> (r: Self)
        ensures
            r == *self,
    {
        ListViewT {
            position: self.position,
            size: self.size,
            disabled: self.disabled,
            visible: self.visible,
            parent: self.parent,
            font: self.font,
        }
    }
}

impl ListViewT {
    /// Build the list view this template describes: compose its style flags,
    /// resolve the parent and font ids, create the native window and hand the
    /// font to it.
    ///
    /// Fails with `KeyNotFound` when the parent or font id is unregistered,
    /// `BadParent` when the parent id names something other than a window,
    /// `BadResource` when the font id names something other than a font, and
    /// `System` when the parent window is no longer live.
    pub fn build(&self, ui: &mut Ui) -> (r: Result<ListView, Error>)
        requires
            old(ui).wf(),
            old(ui).system.next_handle < u64::MAX,
        ensures
            final(ui).wf(),
            same_registry(*old(ui), *final(ui)),
            (!old(ui).registered(self.parent) ==> r == Err::<ListView, Error>(Error::KeyNotFound)
                && *final(ui) == *old(ui)),
            ((old(ui).registered(self.parent) && !(old(ui).lookup(self.parent) is HWND)) ==> (
            r matches Err(e) && e matches Error::BadParent(m) && m@
                == "The parent of a listview must be a window-like control."@) && *final(ui)
                == *old(ui)),
            ((old(ui).registered(self.parent) && old(ui).lookup(self.parent) is HWND) ==> {
                let p = old(ui).lookup(self.parent)->HWND_0;
                &&& (self.font matches Some(fid) ==> {
                    &&& (!old(ui).registered(fid) ==> r == Err::<ListView, Error>(
                        Error::KeyNotFound,
                    ) && *final(ui) == *old(ui))
                    &&& ((old(ui).registered(fid) && !(old(ui).lookup(fid) is HFONT)) ==> (
                    r matches Err(e) && e matches Error::BadResource(m) && m@
                        == "The font of a button must be a font resource."@) && *final(ui) == *old(
                        ui,
                    ))
                })
                &&& (spec_font_ok(*old(ui), self.font) ==> {
                    &&& (!old(ui).system.has_window(p) ==> (r matches Err(e) && e matches
                        Error::System(_)) && *final(ui) == *old(ui))
                    &&& (old(ui).system.has_window(p) ==> (r matches Ok(lv) && {
                        &&& spec_control_window_built(*old(ui), *final(ui), lv@)
                        &&& {
                            let w = final(ui).system.window(lv@);
                            &&& w.class_name@ == "SysListView32"@
                            &&& w.title@ == ""@
                            &&& w.position == self.position
                            &&& w.size == self.size
                            &&& w.style == spec_listview_flags(self.visible, self.disabled)
                            &&& w.ex_style == 0
                            &&& w.parent == p
                            &&& w.font == spec_font_handle(*old(ui), self.font)
                            &&& w.menubar is None
                            &&& w.text_limit == 0
                        }
                    }))
                })
            }),
    {
        let flags: u32 = listview_flags(self.visible, self.disabled);
        let parent = match handle_of_window(
            ui,
            self.parent,
            "The parent of a listview must be a window-like control.",
        ) {
            Ok(h) => h,
            Err(e) => {
                return Err(e);
            },
        };
        let font_handle: Option<u64> = match self.font {
            Some(font_id) => {
                match handle_of_font(ui, font_id, "The font of a button must be a font resource.") {
                    Ok(h) => Some(h),
                    Err(e) => {
                        return Err(e);
                    },
                }
            },
            None => None,
        };
        let params = WindowParams {
            title: "".to_string(),
            class_name: "SysListView32".to_string(),
            position: self.position,
            size: self.size,
            flags: flags,
            ex_flags: Some(0),
            parent: parent,
        };
        proof {
            crate::defs::lemma_listview_flags_bits(self.visible, self.disabled);
        }
        match build_window(&mut ui.system, params) {
            Ok(h) => {
                set_window_font_raw(&mut ui.system, h, font_handle, true);
                Ok(ListView { handle: h })
            },
            Err(e) => Err(Error::System(e)),
        }
    }
}

/// A list view control, owning the window handle its template built.
#[derive(Debug)]
pub struct ListView {
    handle: u64,
}

impl View for ListView {
    type V = u64;

    /// A list view is known by the window handle it owns.
    closed spec fn view(&self) -> u64 {
        self.handle
    }
}

impl ListView {
    /// Read the text of the control.
    pub fn get_text(&self, ui: &Ui) -> (r: String)
        requires
            ui.wf(),
        ensures
            (ui.system.has_window(self@) ==> r == ui.system.window(self@).title),
            (!ui.system.has_window(self@) ==> r@ =~= Seq::<char>::empty()),
    {
        get_window_text(&ui.system, self.handle)
    }

    /// Set the text of the control.
    pub fn set_text(&self, ui: &mut Ui, text: &str)
        requires
            old(ui).wf(),
        ensures
            final(ui).wf(),
            same_registry(*old(ui), *final(ui)),
            (!old(ui).system.has_window(self@) ==> final(ui).system == old(ui).system),
            (old(ui).system.has_window(self@) ==> updated_window(
                old(ui).system,
                final(ui).system,
                self@,
                (Window {
                    title: final(ui).system.window(self@).title,
                    ..old(ui).system.window(self@)
                }),
            ) && final(ui).system.window(self@).title@ == text@),
    {
        set_window_text(&mut ui.system, self.handle, text);
    }

    /// Whether the control's visibility style bit is on.
    pub fn get_visibility(&self, ui: &Ui) -> (r: bool)
        requires
            ui.wf(),
        ensures
            (ui.system.has_window(self@) ==> r == (ui.system.window(self@).style & WS_VISIBLE
                != 0)),
            (!ui.system.has_window(self@) ==> r == false),
    {
        get_window_visibility(&ui.system, self.handle)
    }

    /// Show or hide the control.
    pub fn set_visibility(&self, ui: &mut Ui, visible: bool)
        requires
            old(ui).wf(),
        ensures
            final(ui).wf(),
            same_registry(*old(ui), *final(ui)),
            (!old(ui).system.has_window(self@) ==> final(ui).system == old(ui).system),
            (old(ui).system.has_window(self@) ==> updated_window(
                old(ui).system,
                final(ui).system,
                self@,
                (Window {
                    style: spec_with_bit(old(ui).system.window(self@).style, WS_VISIBLE, visible),
                    ..old(ui).system.window(self@)
                }),
            )),
    {
        set_window_visibility(&mut ui.system, self.handle, visible);
    }

    /// Read the position of the control.
    pub fn get_position(&self, ui: &Ui) -> (r: (i32, i32))
        requires
            ui.wf(),
        ensures
            (ui.system.has_window(self@) ==> r == ui.system.window(self@).position),
            (!ui.system.has_window(self@) ==> r == (0i32, 0i32)),
    {
        get_window_position(&ui.system, self.handle)
    }

    /// Move the control.
    pub fn set_position(&self, ui: &mut Ui, x: i32, y: i32)
        requires
            old(ui).wf(),
        ensures
            final(ui).wf(),
            same_registry(*old(ui), *final(ui)),
            (!old(ui).system.has_window(self@) ==> final(ui).system == old(ui).system),
            (old(ui).system.has_window(self@) ==> updated_window(
                old(ui).system,
                final(ui).system,
                self@,
                (Window { position: (x, y), ..old(ui).system.window(self@) }),
            )),
    {
        set_window_position(&mut ui.system, self.handle, x, y);
    }

    /// Read the size of the control.
    pub fn get_size(&self, ui: &Ui) -> (r: (u32, u32))
        requires
            ui.wf(),
        ensures
            (ui.system.has_window(self@) ==> r == ui.system.window(self@).size),
            (!ui.system.has_window(self@) ==> r == (0u32, 0u32)),
    {
        get_window_size(&ui.system, self.handle)
    }

    /// Resize the control.
    pub fn set_size(&self, ui: &mut Ui, w: u32, h: u32)
        requires
            old(ui).wf(),
        ensures
            final(ui).wf(),
            same_registry(*old(ui), *final(ui)),
            (!old(ui).system.has_window(self@) ==> final(ui).system == old(ui).system),
            (old(ui).system.has_window(self@) ==> updated_window(
                old(ui).system,
                final(ui).system,
                self@,
                (Window { size: (w, h), ..old(ui).system.window(self@) }),
            )),
    {
        set_window_size(&mut ui.system, self.handle, w, h, false);
    }

    /// Whether the control's disabled style bit is off.
    pub fn get_enabled(&self, ui: &Ui) -> (r: bool)
        requires
            ui.wf(),
        ensures
            (ui.system.has_window(self@) ==> r == (ui.system.window(self@).style & WS_DISABLED
                == 0)),
            (!ui.system.has_window(self@) ==> r == false),
    {
        get_window_enabled(&ui.system, self.handle)
    }

    /// Enable or disable the control.
    pub fn set_enabled(&self, ui: &mut Ui, e: bool)
        requires
            old(ui).wf(),
        ensures
            final(ui).wf(),
            same_registry(*old(ui), *final(ui)),
            (!old(ui).system.has_window(self@) ==> final(ui).system == old(ui).system),
            (old(ui).system.has_window(self@) ==> updated_window(
                old(ui).system,
                final(ui).system,
                self@,
                (Window {
                    style: spec_with_bit(old(ui).system.window(self@).style, WS_DISABLED, !e),
                    ..old(ui).system.window(self@)
                }),
            )),
    {
        set_window_enabled(&mut ui.system, self.handle, e);
    }

    /// Look up which registered id names the font the control draws with.
    pub fn get_font(&self, ui: &Ui) -> (r: Option<u64>)
        requires
            ui.wf(),
        ensures
            ((!ui.system.has_window(self@) || ui.system.window(self@).font is None) ==> r is None),
    {
        get_window_font(&ui.system, ui, self.handle)
    }

    /// Hand the control the font registered under `f`, or the class default
    /// for `None`.
    pub fn set_font(&self, ui: &mut Ui, f: Option<u64>) -> (r: Result<(), Error>)
        requires
            old(ui).wf(),
        ensures
            final(ui).wf(),
            same_registry(*old(ui), *final(ui)),
            (match f {
                None => r == Ok::<(), Error>(()),
                Some(fid) => {
                    &&& (!old(ui).registered(fid) ==> r == Err::<(), Error>(Error::KeyNotFound)
                        && *final(ui) == *old(ui))
                    &&& ((old(ui).registered(fid) && !(old(ui).lookup(fid) is HFONT)) ==> (
                    r matches Err(e) && e matches Error::BadResource(_)) && *final(ui) == *old(ui))
                    &&& ((old(ui).registered(fid) && old(ui).lookup(fid) is HFONT) ==> r == Ok::<
                        (),
                        Error,
                    >(()))
                },
            }),
            (r == Ok::<(), Error>(()) ==> ((!old(ui).system.has_window(self@) ==> final(ui).system
                == old(ui).system) && (old(ui).system.has_window(self@) ==> updated_window(
                old(ui).system,
                final(ui).system,
                self@,
                (Window {
                    font: spec_font_handle(*old(ui), f),
                    ..old(ui).system.window(self@)
                }),
            )))),
    {
        set_window_font(ui, self.handle, f)
    }

    /// Give the control the keyboard focus.
    pub fn focus(&self, ui: &mut Ui)
        requires
            old(ui).wf(),
        ensures
            final(ui).wf(),
            same_registry(*old(ui), *final(ui)),
            (!old(ui).system.has_window(self@) ==> final(ui).system == old(ui).system),
            (old(ui).system.has_window(self@) ==> final(ui).system.focus == Some(self@)
                && final(ui).system.windows@ == old(ui).system.windows@
                && final(ui).system.menus@ == old(ui).system.menus@
                && final(ui).system.next_handle == old(ui).system.next_handle
                && final(ui).system.next_menu_item_id == old(ui).system.next_menu_item_id),
    {
        set_focus(&mut ui.system, self.handle);
    }

    /// The handle the control owns, tagged as a window handle.
    pub fn handle(&self) -> (r: AnyHandle)
        ensures
            r == AnyHandle::HWND(self@),
    {
        AnyHandle::HWND(self.handle)
    }

    /// What kind of control this is.
    pub fn control_type(&self) -> (r: ControlType)
        ensures
            r == ControlType::ListView,
    {
        ControlType::ListView
    }

    /// Destroy the control's window. The wrapper keeps its (now dead) handle;
    /// handles are never reused.
    pub fn free(&mut self, ui: &mut Ui)
        requires
            old(ui).wf(),
        ensures
            final(ui).wf(),
            same_registry(*old(ui), *final(ui)),
            *final(self) == *old(self),
            !final(ui).system.has_window(old(self)@),
            (old(ui).system.has_window(old(self)@) ==> final(ui).system.windows@
                == old(ui).system.windows@.remove(old(ui).system.win_index(old(self)@))),
            (!old(ui).system.has_window(old(self)@) ==> final(ui).system == old(ui).system),
            final(ui).system.menus@ == old(ui).system.menus@,
            final(ui).system.next_handle == old(ui).system.next_handle,
            final(ui).system.next_menu_item_id == old(ui).system.next_menu_item_id,
            (forall|h2: u64|
                h2 != old(self)@ ==> final(ui).system.has_window(h2) == old(ui).system.has_window(
                    h2,
                )),
            (forall|h2: u64|
                h2 != old(self)@ && old(ui).system.has_window(h2) ==> final(ui).system.window(h2)
                    == old(ui).system.window(h2)),
    {
        ui.system.destroy_window(self.handle);
    }
}

} // verus!
