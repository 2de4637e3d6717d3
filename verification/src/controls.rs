//! The tagged handle union and the control-type tags that the wrappers and
//! the `Ui` registry exchange.

use vstd::prelude::*;

verus! {

/// A tagged native handle. Window handles and menu handles come from the
/// same allocator but name different resources; a menu item is named by its
/// parent menu's handle together with its command id; a font is a resource
/// handle of its own.
#[allow(non_camel_case_types)]
#[derive(Clone, Copy, PartialEq, Eq, Structural, Debug)]
pub enum AnyHandle {
    /// A window handle.
    HWND(u64),
    /// A menu handle.
    HMENU(u64),
    /// A menu item: the handle of the menu holding it and its command id.
    HMENU_ITEM(u64, u32),
    /// A font resource handle.
    HFONT(u64),
}

/// The kind of resource a handle names, in words.
pub open spec fn spec_human_name(h: AnyHandle) -> Seq<char> {
    match h {
        AnyHandle::HWND(_) => "Window"@,
        AnyHandle::HMENU(_) => "Menu"@,
        AnyHandle::HMENU_ITEM(_, _) => "Menu item"@,
        AnyHandle::HFONT(_) => "Font"@,
    }
}

impl AnyHandle {
    /// Say in words what kind of resource this handle names.
    pub fn human_name(&self) -> (name: String)
        ensures
            name@ == spec_human_name(*self),
    {
        match self {
            AnyHandle::HWND(_) => "Window".to_string(),
            AnyHandle::HMENU(_) => "Menu".to_string(),
            AnyHandle::HMENU_ITEM(_, _) => "Menu item".to_string(),
            AnyHandle::HFONT(_) => "Font".to_string(),
        }
    }
}

/// What kind of control a wrapper stands for.
#[derive(Clone, Copy, PartialEq, Eq, Structural, Debug)]
pub enum ControlType {
    /// A plain top-level or child window.
    Window,
    /// A list view control.
    ListView,
    /// A menu or context menu.
    Menu,
    /// An item of a menu (a separator counts as one).
    MenuItem,
    /// A multi-line text box.
    TextBox,
    /// A font resource.
    Font,
}

} // verus!
