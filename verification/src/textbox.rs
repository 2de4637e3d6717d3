//! A simple text box control: a multi-line text input, with its template and
//! its handle-owning wrapper.

use vstd::prelude::*;

use crate::controls::{AnyHandle, ControlType};
use crate::defs::{
    spec_textbox_flags, spec_with_bit, spec_with_readonly, textbox_flags, with_readonly,
    ES_READONLY, WS_DISABLED, WS_VISIBLE,
};
use crate::error::Error;
use crate::system::Window;
use crate::ui::{same_registry, Ui};
use crate::window_helper::{
    build_window, get_text_limit, get_window_enabled, get_window_font, get_window_long,
    get_window_position, get_window_size, get_window_text, get_window_visibility, handle_of_font,
    handle_of_window, set_focus, set_text_limit, set_window_enabled, set_window_font,
    set_window_font_raw, set_window_long, set_window_position, set_window_size, set_window_text,
    set_window_visibility, spec_control_window_built, spec_font_handle, spec_font_ok,
    updated_window, WindowParams,
};

verus! {

/// A template that creates a multi-line text input control.
///
/// Members:
/// * `text`: the initial text of the text box
/// * `position`: the initial position of the control
/// * `size`: the initial size of the control
/// * `visible`: whether the control starts visible
/// * `disabled`: whether the control starts disabled
/// * `readonly`: whether the user can copy but not edit the content
/// * `limit`: the most characters the control will hold
/// * `scrollbars`: whether to show the horizontal and the vertical scroll bar
/// * `parent`: the id of the parent, which must be a window-like control
/// * `font`: the id of the font resource to draw with, if any
pub struct TextBoxT {
    /// The initial text of the text box.
    pub text: String,
    /// The initial position of the control.
    pub position: (i32, i32),
    /// The initial size of the control.
    pub size: (u32, u32),
    /// Whether the control starts visible.
    pub visible: bool,
    /// Whether the control starts disabled.
    pub disabled: bool,
    /// Whether the user can copy but not edit the content.
    pub readonly: bool,
    /// The most characters the control will hold.
    pub limit: u32,
    /// Whether to show the horizontal and the vertical scroll bar.
    pub scrollbars: (bool, bool),
    /// The id of the parent control.
    pub parent: u64,
    /// The id of the font resource, if any.
    pub font: Option<u64>,
}

impl Clone for TextBoxT {
    /// A template clones field by field.
    fn clone(&self) -> (r: Self)
        ensures
            r == *self,
    {
        TextBoxT {
            text: self.text.clone(),
            position: self.position,
            size: self.size,
            visible: self.visible,
            disabled: self.disabled,
            readonly: self.readonly,
            limit: self.limit,
            scrollbars: self.scrollbars,
            parent: self.parent,
            font: self.font,
        }
    }
}

impl TextBoxT {
    /// Build the text box this template describes: compose its style flags,
    /// resolve the parent and font ids, create the native window, hand the
    /// font to it and set its text limit.
    ///
    /// Fails with `KeyNotFound` when the parent or font id is unregistered,
    /// `BadParent` when the parent id names something other than a window,
    /// `BadResource` when the font id names something other than a font, and
    /// `System` when the parent window is no longer live.
    pub fn build(&self, ui: &mut Ui) -> (r: Result<TextBox, Error>)
        requires
            old(ui).wf(),
            old(ui).system.next_handle < u64::MAX,
        ensures
            final(ui).wf(),
            same_registry(*old(ui), *final(ui)),
            (!old(ui).registered(self.parent) ==> r == Err::<TextBox, Error>(Error::KeyNotFound)
                && *final(ui) == *old(ui)),
            ((old(ui).registered(self.parent) && !(old(ui).lookup(self.parent) is HWND)) ==> (
            r matches Err(e) && e matches Error::BadParent(m) && m@
                == "The parent of a textinput must be a window-like control."@) && *final(ui)
                == *old(ui)),
            ((old(ui).registered(self.parent) && old(ui).lookup(self.parent) is HWND) ==> {
                let p = old(ui).lookup(self.parent)->HWND_0;
                &&& (self.font matches Some(fid) ==> {
                    &&& (!old(ui).registered(fid) ==> r == Err::<TextBox, Error>(
                        Error::KeyNotFound,
                    ) && *final(ui) == *old(ui))
                    &&& ((old(ui).registered(fid) && !(old(ui).lookup(fid) is HFONT)) ==> (
                    r matches Err(e) && e matches Error::BadResource(m) && m@
                        == "The font of a button must be a font resource."@) && *final(ui) == *old(
                        ui,
                    ))
                })
                &&& (spec_font_ok(*old(ui), self.font) ==> {
                    &&& (!old(ui).system.has_window(p) ==> (r matches Err(e) && e matches
                        Error::System(_)) && *final(ui) == *old(ui))
                    &&& (old(ui).system.has_window(p) ==> (r matches Ok(tb) && {
                        &&& spec_control_window_built(*old(ui), *final(ui), tb@)
                        &&& {
                            let w = final(ui).system.window(tb@);
                            &&& w.class_name@ == "EDIT"@
                            &&& w.title == self.text
                            &&& w.position == self.position
                            &&& w.size == self.size
                            &&& w.style == spec_textbox_flags(
                                self.readonly,
                                self.visible,
                                self.scrollbars,
                                self.disabled,
                            )
                            &&& w.ex_style == 0
                            &&& w.parent == p
                            &&& w.font == spec_font_handle(*old(ui), self.font)
                            &&& w.menubar is None
                            &&& w.text_limit == self.limit
                        }
                    }))
                })
            }),
    {
        let flags: u32 = textbox_flags(self.readonly, self.visible, self.scrollbars, self.disabled);
        let parent = match handle_of_window(
            ui,
            self.parent,
            "The parent of a textinput must be a window-like control.",
        ) {
            Ok(h) => h,
            Err(e) => {
                return Err(e);
            },
        };
        let font_handle: Option<u64> = match self.font {
            Some(font_id) => {
                match handle_of_font(ui, font_id, "The font of a button must be a font resource.") {
                    Ok(h) => Some(h),
                    Err(e) => {
                        return Err(e);
                    },
                }
            },
            None => None,
        };
        let params = WindowParams {
            title: self.text.clone(),
            class_name: "EDIT".to_string(),
            position: self.position,
            size: self.size,
            flags: flags,
            ex_flags: Some(0),
            parent: parent,
        };
        proof {
            crate::defs::lemma_textbox_flags_bits(
                self.readonly,
                self.visible,
                self.scrollbars,
                self.disabled,
            );
        }
        match build_window(&mut ui.system, params) {
            Ok(h) => {
                set_window_font_raw(&mut ui.system, h, font_handle, true);
                set_text_limit(&mut ui.system, h, self.limit);
                Ok(TextBox { handle: h })
            },
            Err(e) => Err(Error::System(e)),
        }
    }
}

/// A multi-line text input control, owning the window handle its template
/// built.
#[derive(Debug)]
pub struct TextBox {
    handle: u64,
}

impl View for TextBox {
    type V = u64;

    /// A text box is known by the window handle it owns.
    closed spec fn view(&self) -> u64 {
        self.handle
    }
}

impl TextBox {
    /// Set or clear the read-only style bit, leaving the rest of the style as
    /// it stands.
    pub fn set_readonly(&self, ui: &mut Ui, readonly: bool)
        requires
            old(ui).wf(),
        ensures
            final(ui).wf(),
            same_registry(*old(ui), *final(ui)),
            (!old(ui).system.has_window(self@) ==> final(ui).system == old(ui).system),
            (old(ui).system.has_window(self@) ==> updated_window(
                old(ui).system,
                final(ui).system,
                self@,
                (Window {
                    style: spec_with_readonly(old(ui).system.window(self@).style, readonly),
                    ..old(ui).system.window(self@)
                }),
            )),
    {
        let old_style = get_window_long(&ui.system, self.handle);
        let found = ui.system.find_window(self.handle).is_some();
        if found {
            set_window_long(&mut ui.system, self.handle, with_readonly(old_style, readonly));
        }
    }

    /// Whether the user cannot edit the content of the control.
    pub fn get_readonly(&self, ui: &Ui) -> (r: bool)
        requires
            ui.wf(),
        ensures
            (ui.system.has_window(self@) ==> r == (ui.system.window(self@).style & ES_READONLY
                == ES_READONLY)),
            (!ui.system.has_window(self@) ==> r == false),
    {
        let style = get_window_long(&ui.system, self.handle);
        proof {
            assert(0u32 & ES_READONLY != ES_READONLY) by (bit_vector);
        }
        (style & ES_READONLY) == ES_READONLY
    }

    /// Set the most characters the control will hold.
    pub fn set_limit(&self, ui: &mut Ui, limit: u32)
        requires
            old(ui).wf(),
        ensures
            final(ui).wf(),
            same_registry(*old(ui), *final(ui)),
            (!old(ui).system.has_window(self@) ==> final(ui).system == old(ui).system),
            (old(ui).system.has_window(self@) ==> updated_window(
                old(ui).system,
                final(ui).system,
                self@,
                (Window { text_limit: limit, ..old(ui).system.window(self@) }),
            )),
    {
        set_text_limit(&mut ui.system, self.handle, limit);
    }

    /// Read the most characters the control will hold.
    pub fn get_limit(&self, ui: &Ui) -> (r: u32)
        requires
            ui.wf(),
        ensures
            (ui.system.has_window(self@) ==> r == ui.system.window(self@).text_limit),
            (!ui.system.has_window(self@) ==> r == 0),
    {
        get_text_limit(&ui.system, self.handle)
    }

    /// Read the text of the control.
    pub fn get_text(&self, ui: &Ui) -> (r: String)
        requires
            ui.wf(),
        ensures
            (ui.system.has_window(self@) ==> r == ui.system.window(self@).title),
            (!ui.system.has_window(self@) ==> r@ =~= Seq::<char>::empty()),
    {
        get_window_text(&ui.system, self.handle)
    }

    /// Set the text of the control.
    pub fn set_text(&self, ui: &mut Ui, text: &str)
        requires
            old(ui).wf(),
        ensures
            final(ui).wf(),
            same_registry(*old(ui), *final(ui)),
            (!old(ui).system.has_window(self@) ==> final(ui).system == old(ui).system),
            (old(ui).system.has_window(self@) ==> updated_window(
                old(ui).system,
                final(ui).system,
                self@,
                (Window {
                    title: final(ui).system.window(self@).title,
                    ..old(ui).system.window(self@)
                }),
            ) && final(ui).system.window(self@).title@ == text@),
    {
        set_window_text(&mut ui.system, self.handle, text);
    }

    /// Whether the control's visibility style bit is on.
    pub fn get_visibility(&self, ui: &Ui) -> (r: bool)
        requires
            ui.wf(),
        ensures
            (ui.system.has_window(self@) ==> r == (ui.system.window(self@).style & WS_VISIBLE
                != 0)),
            (!ui.system.has_window(self@) ==> r == false),
    {
        get_window_visibility(&ui.system, self.handle)
    }

    /// Show or hide the control.
    pub fn set_visibility(&self, ui: &mut Ui, visible: bool)
        requires
            old(ui).wf(),
        ensures
            final(ui).wf(),
            same_registry(*old(ui), *final(ui)),
            (!old(ui).system.has_window(self@) ==> final(ui).system == old(ui).system),
            (old(ui).system.has_window(self@) ==> updated_window(
                old(ui).system,
                final(ui).system,
                self@,
                (Window {
                    style: spec_with_bit(old(ui).system.window(self@).style, WS_VISIBLE, visible),
                    ..old(ui).system.window(self@)
                }),
            )),
    {
        set_window_visibility(&mut ui.system, self.handle, visible);
    }

    /// Read the position of the control.
    pub fn get_position(&self, ui: &Ui) -> (r: (i32, i32))
        requires
            ui.wf(),
        ensures
            (ui.system.has_window(self@) ==> r == ui.system.window(self@).position),
            (!ui.system.has_window(self@) ==> r == (0i32, 0i32)),
    {
        get_window_position(&ui.system, self.handle)
    }

    /// Move the control.
    pub fn set_position(&self, ui: &mut Ui, x: i32, y: i32)
        requires
            old(ui).wf(),
        ensures
            final(ui).wf(),
            same_registry(*old(ui), *final(ui)),
            (!old(ui).system.has_window(self@) ==> final(ui).system == old(ui).system),
            (old(ui).system.has_window(self@) ==> updated_window(
                old(ui).system,
                final(ui).system,
                self@,
                (Window { position: (x, y), ..old(ui).system.window(self@) }),
            )),
    {
        set_window_position(&mut ui.system, self.handle, x, y);
    }

    /// Read the size of the control.
    pub fn get_size(&self, ui: &Ui) -> (r: (u32, u32))
        requires
            ui.wf(),
        ensures
            (ui.system.has_window(self@) ==> r == ui.system.window(self@).size),
            (!ui.system.has_window(self@) ==> r == (0u32, 0u32)),
    {
        get_window_size(&ui.system, self.handle)
    }

    /// Resize the control.
    pub fn set_size(&self, ui: &mut Ui, w: u32, h: u32)
        requires
            old(ui).wf(),
        ensures
            final(ui).wf(),
            same_registry(*old(ui), *final(ui)),
            (!old(ui).system.has_window(self@) ==> final(ui).system == old(ui).system),
            (old(ui).system.has_window(self@) ==> updated_window(
                old(ui).system,
                final(ui).system,
                self@,
                (Window { size: (w, h), ..old(ui).system.window(self@) }),
            )),
    {
        set_window_size(&mut ui.system, self.handle, w, h, true);
    }

    /// Whether the control's disabled style bit is off.
    pub fn get_enabled(&self, ui: &Ui) -> (r: bool)
        requires
            ui.wf(),
        ensures
            (ui.system.has_window(self@) ==> r == (ui.system.window(self@).style & WS_DISABLED
                == 0)),
            (!ui.system.has_window(self@) ==> r == false),
    {
        get_window_enabled(&ui.system, self.handle)
    }

    /// Enable or disable the control.
    pub fn set_enabled(&self, ui: &mut Ui, e: bool)
        requires
            old(ui).wf(),
        ensures
            final(ui).wf(),
            same_registry(*old(ui), *final(ui)),
            (!old(ui).system.has_window(self@) ==> final(ui).system == old(ui).system),
            (old(ui).system.has_window(self@) ==> updated_window(
                old(ui).system,
                final(ui).system,
                self@,
                (Window {
                    style: spec_with_bit(old(ui).system.window(self@).style, WS_DISABLED, !e),
                    ..old(ui).system.window(self@)
                }),
            )),
    {
        set_window_enabled(&mut ui.system, self.handle, e);
    }

    /// Look up which registered id names the font the control draws with.
    pub fn get_font(&self, ui: &Ui) -> (r: Option<u64>)
        requires
            ui.wf(),
        ensures
            ((!ui.system.has_window(self@) || ui.system.window(self@).font is None) ==> r is None),
    {
        get_window_font(&ui.system, ui, self.handle)
    }

    /// Hand the control the font registered under `f`, or the class default
    /// for `None`.
    pub fn set_font(&self, ui: &mut Ui, f: Option<u64>) -> (r: Result<(), Error>)
        requires
            old(ui).wf(),
        ensures
            final(ui).wf(),
            same_registry(*old(ui), *final(ui)),
            (match f {
                None => r == Ok::<(), Error>(()),
                Some(fid) => {
                    &&& (!old(ui).registered(fid) ==> r == Err::<(), Error>(Error::KeyNotFound)
                        && *final(ui) == *old(ui))
                    &&& ((old(ui).registered(fid) && !(old(ui).lookup(fid) is HFONT)) ==> (
                    r matches Err(e) && e matches Error::BadResource(_)) && *final(ui) == *old(ui))
                    &&& ((old(ui).registered(fid) && old(ui).lookup(fid) is HFONT) ==> r == Ok::<
                        (),
                        Error,
                    >(()))
                },
            }),
            (r == Ok::<(), Error>(()) ==> ((!old(ui).system.has_window(self@) ==> final(ui).system
                == old(ui).system) && (old(ui).system.has_window(self@) ==> updated_window(
                old(ui).system,
                final(ui).system,
                self@,
                (Window {
                    font: spec_font_handle(*old(ui), f),
                    ..old(ui).system.window(self@)
                }),
            )))),
    {
        set_window_font(ui, self.handle, f)
    }

    /// Give the control the keyboard focus.
    pub fn focus(&self, ui: &mut Ui)
        requires
            old(ui).wf(),
        ensures
            final(ui).wf(),
            same_registry(*old(ui), *final(ui)),
            (!old(ui).system.has_window(self@) ==> final(ui).system == old(ui).system),
            (old(ui).system.has_window(self@) ==> final(ui).system.focus == Some(self@)
                && final(ui).system.windows@ == old(ui).system.windows@
                && final(ui).system.menus@ == old(ui).system.menus@
                && final(ui).system.next_handle == old(ui).system.next_handle
                && final(ui).system.next_menu_item_id == old(ui).system.next_menu_item_id),
    {
        set_focus(&mut ui.system, self.handle);
    }

    /// The handle the control owns, tagged as a window handle.
    pub fn handle(&self) -> (r: AnyHandle)
        ensures
            r == AnyHandle::HWND(self@),
    {
        AnyHandle::HWND(self.handle)
    }

    /// What kind of control this is.
    pub fn control_type(&self) -> (r: ControlType)
        ensures
            r == ControlType::TextBox,
    {
        ControlType::TextBox
    }

    /// Destroy the control's window. The wrapper keeps its (now dead) handle;
    /// handles are never reused.
    pub fn free(&mut self, ui: &mut Ui)
        requires
            old(ui).wf(),
        ensures
            final(ui).wf(),
            same_registry(*old(ui), *final(ui)),
            *final(self) == *old(self),
            !final(ui).system.has_window(old(self)@),
            (old(ui).system.has_window(old(self)@) ==> final(ui).system.windows@
                == old(ui).system.windows@.remove(old(ui).system.win_index(old(self)@))),
            (!old(ui).system.has_window(old(self)@) ==> final(ui).system == old(ui).system),
            final(ui).system.menus@ == old(ui).system.menus@,
            final(ui).system.next_handle == old(ui).system.next_handle,
            final(ui).system.next_menu_item_id == old(ui).system.next_menu_item_id,
            (forall|h2: u64|
                h2 != old(self)@ ==> final(ui).system.has_window(h2) == old(ui).system.has_window(
                    h2,
                )),
            (forall|h2: u64|
                h2 != old(self)@ && old(ui).system.has_window(h2) ==> final(ui).system.window(h2)
                    == old(ui).system.window(h2)),
    {
        ui.system.destroy_window(self.handle);
    }
}

} // verus!
