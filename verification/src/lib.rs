//! Declarative templates for native windowed GUI controls.
//!
//! Each control (list view, menu, menu item, separator, text box) is described
//! by a plain template struct. A builder consumes the template, composes the
//! native window-style bitflags, resolves the parent and font through the `Ui`
//! registry, allocates the underlying window or menu resource, and returns a
//! handle-owning wrapper. The native windowing state is modeled by [`system`],
//! so every rule of the library — flag composition, parent validation, handle
//! freshness, and menu command-id bookkeeping — is stated and verified.

pub mod controls;
pub mod defs;
pub mod error;
pub mod listview;
pub mod menu;
pub mod menu_helper;
pub mod system;
pub mod textbox;
pub mod ui;
pub mod window_helper;
