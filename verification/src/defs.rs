//! Native window- and menu-style constants, and the bitflag composition rules
//! used by the control builders.
//!
//! The constant values are the ones the native windowing API documents for
//! window styles (`WS_*`), button styles (`BS_*`), edit styles (`ES_*`), list
//! view styles (`LVS_*`), menu flags (`MF_*`), popup tracking flags (`TPM_*`)
//! and edit-control messages (`EM_*`).

use vstd::prelude::*;

verus! {

/// The control is a child window.
pub const WS_CHILD: u32 = 0x4000_0000;
/// The control is initially visible.
pub const WS_VISIBLE: u32 = 0x1000_0000;
/// The control is initially disabled.
pub const WS_DISABLED: u32 = 0x0800_0000;
/// Clip sibling windows when painting.
pub const WS_CLIPSIBLINGS: u32 = 0x0400_0000;
/// Clip child windows when painting.
pub const WS_CLIPCHILDREN: u32 = 0x0200_0000;
/// The control has a thin border.
pub const WS_BORDER: u32 = 0x0080_0000;
/// The control has a horizontal scroll bar.
pub const WS_HSCROLL: u32 = 0x0010_0000;
/// The control has a vertical scroll bar.
pub const WS_VSCROLL: u32 = 0x0020_0000;

/// The button-like control sends notification messages to its parent.
pub const BS_NOTIFY: u32 = 0x0000_4000;
/// The button-like control displays text.
pub const BS_TEXT: u32 = 0x0000_0000;

/// The list view shows its items as a list.
pub const LVS_LIST: u32 = 0x0000_0003;

/// The edit control scrolls horizontally as the caret moves.
pub const ES_AUTOHSCROLL: u32 = 0x0000_0080;
/// The edit control scrolls vertically as the caret moves.
pub const ES_AUTOVSCROLL: u32 = 0x0000_0040;
/// The edit control accepts several lines of text.
pub const ES_MULTILINE: u32 = 0x0000_0004;
/// The edit control rejects user edits.
pub const ES_READONLY: u32 = 0x0000_0800;

/// Message that sets the text limit of an edit control.
pub const EM_LIMITTEXT: u32 = 0x0000_00C5;
/// Message that queries the text limit of an edit control.
pub const EM_GETLIMITTEXT: u32 = 0x0000_00D5;

/// The appended menu entry is a text item.
pub const MF_STRING: u32 = 0x0000_0000;
/// The appended menu entry opens a submenu.
pub const MF_POPUP: u32 = 0x0000_0010;
/// The appended menu entry is a horizontal dividing line.
pub const MF_SEPARATOR: u32 = 0x0000_0800;

/// The popup menu aligns its left side with the requested position.
pub const TPM_LEFTALIGN: u32 = 0x0000_0000;
/// The popup menu aligns its top side with the requested position.
pub const TPM_TOPALIGN: u32 = 0x0000_0000;
/// The popup menu tracks the right mouse button.
pub const TPM_RIGHTBUTTON: u32 = 0x0000_0002;
/// The popup menu is shown without animation.
pub const TPM_NOANIMATION: u32 = 0x0000_4000;

/// The window style a list view template asks for: a clipped child control in
/// list mode, with the visibility and disabled bits driven by the template.
pub open spec fn spec_listview_flags(visible: bool, disabled: bool) -> u32 {
    WS_CHILD | BS_NOTIFY | BS_TEXT | WS_CLIPSIBLINGS | WS_CLIPCHILDREN | LVS_LIST
        | (if visible { WS_VISIBLE } else { 0 })
        | (if disabled { WS_DISABLED } else { 0 })
}

/// Compose the window style of a list view from its template switches.
pub fn listview_flags(visible: bool, disabled: bool) -> (flags: u32)
    ensures
        flags == spec_listview_flags(visible, disabled),
{
    WS_CHILD | BS_NOTIFY | BS_TEXT | WS_CLIPSIBLINGS | WS_CLIPCHILDREN | LVS_LIST
        | (if visible { WS_VISIBLE } else { 0 })
        | (if disabled { WS_DISABLED } else { 0 })
}

/// The window style a text box template asks for: a bordered multi-line child
/// edit control, with the read-only, visibility, scroll bar and disabled bits
/// driven by the template.
pub open spec fn spec_textbox_flags(
    readonly: bool,
    visible: bool,
    scrollbars: (bool, bool),
    disabled: bool,
) -> u32 {
    WS_CHILD | WS_BORDER | ES_AUTOHSCROLL | ES_MULTILINE | ES_AUTOVSCROLL
        | (if readonly { ES_READONLY } else { 0 })
        | (if visible { WS_VISIBLE } else { 0 })
        | (if scrollbars.0 { WS_HSCROLL } else { 0 })
        | (if scrollbars.1 { WS_VSCROLL } else { 0 })
        | (if disabled { WS_DISABLED } else { 0 })
}

/// Compose the window style of a text box from its template switches.
pub fn textbox_flags(
    readonly: bool,
    visible: bool,
    scrollbars: (bool, bool),
    disabled: bool,
) -> (flags: u32)
    ensures
        flags == spec_textbox_flags(readonly, visible, scrollbars, disabled),
{
    WS_CHILD | WS_BORDER | ES_AUTOHSCROLL | ES_MULTILINE | ES_AUTOVSCROLL
        | (if readonly { ES_READONLY } else { 0 })
        | (if visible { WS_VISIBLE } else { 0 })
        | (if scrollbars.0 { WS_HSCROLL } else { 0 })
        | (if scrollbars.1 { WS_VSCROLL } else { 0 })
        | (if disabled { WS_DISABLED } else { 0 })
}

/// The flags a context menu is tracked with: left/top aligned, right-button
/// tracking, no animation.
pub open spec fn spec_popup_flags() -> u32 {
    TPM_NOANIMATION | TPM_RIGHTBUTTON | TPM_LEFTALIGN | TPM_TOPALIGN
}

/// Each switch of a list view template drives exactly its own style bit.
pub proof fn lemma_listview_flags_bits(visible: bool, disabled: bool)
    ensures
        (spec_listview_flags(visible, disabled) & WS_VISIBLE != 0) == visible,
        (spec_listview_flags(visible, disabled) & WS_DISABLED != 0) == disabled,
        spec_listview_flags(visible, disabled) & WS_CHILD != 0,
        spec_listview_flags(visible, disabled) & LVS_LIST == LVS_LIST,
{
    assert((spec_listview_flags(visible, disabled) & WS_VISIBLE != 0) == visible
        && (spec_listview_flags(visible, disabled) & WS_DISABLED != 0) == disabled
        && spec_listview_flags(visible, disabled) & WS_CHILD != 0
        && spec_listview_flags(visible, disabled) & LVS_LIST == LVS_LIST) by (bit_vector);
}

/// Each switch of a text box template drives exactly its own style bit.
pub proof fn lemma_textbox_flags_bits(
    readonly: bool,
    visible: bool,
    scrollbars: (bool, bool),
    disabled: bool,
)
    ensures
        (spec_textbox_flags(readonly, visible, scrollbars, disabled) & ES_READONLY != 0)
            == readonly,
        (spec_textbox_flags(readonly, visible, scrollbars, disabled) & WS_VISIBLE != 0)
            == visible,
        (spec_textbox_flags(readonly, visible, scrollbars, disabled) & WS_HSCROLL != 0)
            == scrollbars.0,
        (spec_textbox_flags(readonly, visible, scrollbars, disabled) & WS_VSCROLL != 0)
            == scrollbars.1,
        (spec_textbox_flags(readonly, visible, scrollbars, disabled) & WS_DISABLED != 0)
            == disabled,
        spec_textbox_flags(readonly, visible, scrollbars, disabled) & WS_CHILD != 0,
{
    let h = scrollbars.0;
    let v = scrollbars.1;
    assert({
        let f = spec_textbox_flags(readonly, visible, (h, v), disabled);
        (f & ES_READONLY != 0) == readonly
            && (f & WS_VISIBLE != 0) == visible
            && (f & WS_HSCROLL != 0) == h
            && (f & WS_VSCROLL != 0) == v
            && (f & WS_DISABLED != 0) == disabled
            && f & WS_CHILD != 0
    }) by (bit_vector);
    assert(scrollbars == (h, v));
}

/// Setting the read-only style keeps every other style bit as it was.
pub open spec fn spec_with_readonly(style: u32, readonly: bool) -> u32 {
    if readonly {
        style | ES_READONLY
    } else {
        style & !ES_READONLY
    }
}

/// Turn the read-only style bit on or off, leaving the rest of the style as
/// it stands.
pub fn with_readonly(style: u32, readonly: bool) -> (new_style: u32)
    ensures
        new_style == spec_with_readonly(style, readonly),
        (new_style & ES_READONLY == ES_READONLY) == readonly,
        new_style & !ES_READONLY == style & !ES_READONLY,
{
    proof {
        lemma_with_readonly(style, readonly);
    }
    if readonly {
        style | ES_READONLY
    } else {
        style & !ES_READONLY
    }
}

/// The read-only update sets exactly the requested bit and keeps the others.
pub proof fn lemma_with_readonly(style: u32, readonly: bool)
    ensures
        (spec_with_readonly(style, readonly) & ES_READONLY == ES_READONLY) == readonly,
        spec_with_readonly(style, readonly) & !ES_READONLY == style & !ES_READONLY,
{
    assert((spec_with_readonly(style, readonly) & ES_READONLY == ES_READONLY) == readonly
        && spec_with_readonly(style, readonly) & !ES_READONLY == style & !ES_READONLY)
        by (bit_vector);
}

/// Flip one window-style bit on or off, leaving the rest of the style as it
/// stands. The visibility and enabled switches of a built control go through
/// this rule.
pub open spec fn spec_with_bit(style: u32, bit: u32, on: bool) -> u32 {
    if on {
        style | bit
    } else {
        style & !bit
    }
}

/// Turn one style bit on or off.
pub fn with_bit(style: u32, bit: u32, on: bool) -> (new_style: u32)
    ensures
        new_style == spec_with_bit(style, bit, on),
{
    if on {
        style | bit
    } else {
        style & !bit
    }
}

/// Flipping one bit touches that bit alone.
pub proof fn lemma_with_bit(style: u32, bit: u32, on: bool)
    ensures
        bit != 0 ==> ((spec_with_bit(style, bit, on) & bit != 0) == on),
        spec_with_bit(style, bit, on) & !bit == style & !bit,
{
    assert((bit != 0 ==> ((spec_with_bit(style, bit, on) & bit != 0) == on))
        && spec_with_bit(style, bit, on) & !bit == style & !bit) by (bit_vector);
}

} // verus!
