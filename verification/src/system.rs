//! A model of the native windowing state the controls live in: the window
//! table, the menu table, the handle allocator and the menu command-id
//! counter.
//!
//! Every window or menu handle comes from one allocator (`next_handle`) and is
//! never reused, so handles are unique across both tables. Every menu item or
//! separator draws its command id from one counter (`next_menu_item_id`), so
//! command ids are unique across all menus. Both facts are part of [`System::wf`],
//! which every operation of the library preserves.

use vstd::prelude::*;

verus! {

/// One native window: its handle and the state the controls read and write.
pub struct Window {
    /// The window's own handle.
    pub handle: u64,
    /// The window class the window was created from.
    pub class_name: String,
    /// The window text (the title, or an edit control's content).
    pub title: String,
    /// Top-left corner, relative to the parent.
    pub position: (i32, i32),
    /// Width and height.
    pub size: (u32, u32),
    /// The window style bits.
    pub style: u32,
    /// The extended window style bits.
    pub ex_style: u32,
    /// The parent window's handle; `0` for a top-level window.
    pub parent: u64,
    /// The font resource the window draws its text with, if one was set.
    pub font: Option<u64>,
    /// The menu bar attached to the window, if one was set.
    pub menubar: Option<u64>,
    /// The text limit of an edit control; `0` means the class default.
    pub text_limit: u32,
}

/// What one appended menu entry is.
#[derive(Clone, Copy, PartialEq, Eq, Structural, Debug)]
pub enum MenuEntryKind {
    /// The entry opens the menu with the given handle.
    Submenu(u64),
    /// The entry is a plain text item.
    Item,
    /// The entry is a horizontal dividing line.
    Separator,
}

/// One entry of a menu, in the order the entries were appended.
pub struct MenuEntry {
    /// What the entry is.
    pub kind: MenuEntryKind,
    /// The command id; items and separators draw it from the global counter,
    /// submenu entries carry `0`.
    pub id: u32,
    /// The entry's text; empty for separators.
    pub text: String,
    /// Whether the entry can be picked.
    pub enabled: bool,
}

impl MenuEntry {
    /// Whether the entry carries a command id (items and separators do,
    /// submenu entries do not).
    pub open spec fn is_cmd(self) -> bool {
        !(self.kind is Submenu)
    }
}

/// One native menu: its handle and its entries.
pub struct MenuData {
    /// The menu's own handle.
    pub handle: u64,
    /// Whether the menu was created as a popup menu.
    pub popup: bool,
    /// Whether the menu reports picks by position (`MNS_NOTIFYBYPOS`).
    pub notify_by_pos: bool,
    /// The entries, in append order.
    pub entries: Vec<MenuEntry>,
}

/// A popup menu being tracked on the screen.
pub struct TrackedPopup {
    /// The menu being shown.
    pub menu: u64,
    /// Absolute x position of the popup.
    pub x: i32,
    /// Absolute y position of the popup.
    pub y: i32,
    /// The window that owns the popup.
    pub owner: u64,
    /// The tracking flags the popup was shown with.
    pub flags: u32,
}

/// The native windowing state.
pub struct System {
    /// Every live window.
    pub windows: Vec<Window>,
    /// Every live menu.
    pub menus: Vec<MenuData>,
    /// The next handle the allocator hands out; handles are never reused.
    pub next_handle: u64,
    /// The last menu command id handed out; ids are never reused.
    pub next_menu_item_id: u32,
    /// The window holding the keyboard focus, if any.
    pub focus: Option<u64>,
    /// The popup menu being tracked, if any.
    pub popup: Option<TrackedPopup>,
}

impl System {
    /// A state with no windows and no menus.
    pub fn new() -> (sys: System)
        ensures
            sys.wf(),
            sys.windows@ =~= Seq::<Window>::empty(),
            sys.menus@ =~= Seq::<MenuData>::empty(),
            sys.next_handle == 1,
            sys.next_menu_item_id == 0,
            sys.focus is None,
            sys.popup is None,
    {
        System {
            windows: Vec::new(),
            menus: Vec::new(),
            next_handle: 1,
            next_menu_item_id: 0,
            focus: None,
            popup: None,
        }
    }

    /// Whether a window with handle `h` is live.
    pub open spec fn has_window(self, h: u64) -> bool {
        exists|i: int|
            0 <= i < self.windows@.len() && (#[trigger] self.windows@[i]).handle == h
    }

    /// The index of the window with handle `h` (well defined under `wf`).
    pub open spec fn win_index(self, h: u64) -> int {
        choose|i: int|
            0 <= i < self.windows@.len() && (#[trigger] self.windows@[i]).handle == h
    }

    /// The window with handle `h` (well defined under `wf` when live).
    pub open spec fn window(self, h: u64) -> Window {
        self.windows@[self.win_index(h)]
    }

    /// Whether a menu with handle `h` is live.
    pub open spec fn has_menu(self, h: u64) -> bool {
        exists|i: int| 0 <= i < self.menus@.len() && (#[trigger] self.menus@[i]).handle == h
    }

    /// The index of the menu with handle `h` (well defined under `wf`).
    pub open spec fn menu_index(self, h: u64) -> int {
        choose|i: int| 0 <= i < self.menus@.len() && (#[trigger] self.menus@[i]).handle == h
    }

    /// The menu with handle `h` (well defined under `wf` when live).
    pub open spec fn menu(self, h: u64) -> MenuData {
        self.menus@[self.menu_index(h)]
    }

    /// Whether `(m, e)` names an entry: menu index `m`, entry index `e`.
    pub open spec fn valid_entry(self, m: int, e: int) -> bool {
        0 <= m < self.menus@.len() && 0 <= e < self.menus@[m].entries@.len()
    }

    /// Window handles are in range and pairwise distinct.
    pub open spec fn wf_windows(self) -> bool {
        &&& forall|i: int|
            0 <= i < self.windows@.len() ==> 1 <= (#[trigger] self.windows@[i]).handle
                < self.next_handle
        &&& forall|i: int, j: int|
            0 <= i < self.windows@.len() && 0 <= j < self.windows@.len() && i != j
                ==> (#[trigger] self.windows@[i]).handle != (#[trigger] self.windows@[j]).handle
    }

    /// Menu handles are in range, pairwise distinct, and distinct from every
    /// window handle.
    pub open spec fn wf_menus(self) -> bool {
        &&& forall|i: int|
            0 <= i < self.menus@.len() ==> 1 <= (#[trigger] self.menus@[i]).handle
                < self.next_handle
        &&& forall|i: int, j: int|
            0 <= i < self.menus@.len() && 0 <= j < self.menus@.len() && i != j
                ==> (#[trigger] self.menus@[i]).handle != (#[trigger] self.menus@[j]).handle
        &&& forall|i: int, j: int|
            0 <= i < self.windows@.len() && 0 <= j < self.menus@.len()
                ==> (#[trigger] self.windows@[i]).handle != (#[trigger] self.menus@[j]).handle
    }

    /// A window's menu bar, when set, names a live menu.
    pub open spec fn wf_menubars(self) -> bool {
        forall|i: int|
            0 <= i < self.windows@.len() ==> ((#[trigger] self.windows@[i]).menubar matches Some(
                mb,
            ) ==> self.has_menu(mb))
    }

    /// Every command id was handed out by the counter.
    pub open spec fn wf_menu_ids(self) -> bool {
        forall|m: int, e: int|
            self.valid_entry(m, e) && (#[trigger] self.menus@[m].entries@[e]).is_cmd()
                ==> 1 <= self.menus@[m].entries@[e].id <= self.next_menu_item_id
    }

    /// No two items or separators, anywhere, share a command id.
    pub open spec fn wf_menu_ids_unique(self) -> bool {
        forall|m1: int, e1: int, m2: int, e2: int|
            self.valid_entry(m1, e1) && self.valid_entry(m2, e2) && (m1 != m2 || e1 != e2)
                && (#[trigger] self.menus@[m1].entries@[e1]).is_cmd()
                && (#[trigger] self.menus@[m2].entries@[e2]).is_cmd()
                ==> self.menus@[m1].entries@[e1].id != self.menus@[m2].entries@[e2].id
    }

    /// The state is well formed: the allocator has not handed out handle `0`,
    /// handles are unique, menu bars are live, and command ids are unique and
    /// bounded by the counter.
    pub open spec fn wf(self) -> bool {
        &&& 1 <= self.next_handle
        &&& self.wf_windows()
        &&& self.wf_menus()
        &&& self.wf_menubars()
        &&& self.wf_menu_ids()
        &&& self.wf_menu_ids_unique()
    }

    /// Under `wf`, an index holding handle `h` is the window index of `h`.
    pub proof fn lemma_win_index(self, i: int, h: u64)
        requires
            self.wf_windows(),
            0 <= i < self.windows@.len(),
            self.windows@[i].handle == h,
        ensures
            self.has_window(h),
            self.win_index(h) == i,
            self.window(h) == self.windows@[i],
    {
        assert(self.has_window(h));
        let j = self.win_index(h);
        assert(0 <= j < self.windows@.len() && self.windows@[j].handle == h);
        if i != j {
            assert(self.windows@[i].handle != self.windows@[j].handle);
        }
    }

    /// Under `wf`, an index holding handle `h` is the menu index of `h`.
    pub proof fn lemma_menu_index(self, i: int, h: u64)
        requires
            self.wf_menus(),
            0 <= i < self.menus@.len(),
            self.menus@[i].handle == h,
        ensures
            self.has_menu(h),
            self.menu_index(h) == i,
            self.menu(h) == self.menus@[i],
    {
        assert(self.has_menu(h));
        let j = self.menu_index(h);
        assert(0 <= j < self.menus@.len() && self.menus@[j].handle == h);
        if i != j {
            assert(self.menus@[i].handle != self.menus@[j].handle);
        }
    }

    /// The handle spaces never meet: one handle cannot name both a live
    /// window and a live menu, since both draw from one allocator that never
    /// hands a handle out twice.
    pub proof fn lemma_handle_spaces_disjoint(self, h: u64)
        requires
            self.wf(),
        ensures
            !(self.has_window(h) && self.has_menu(h)),
    {
        if self.has_window(h) && self.has_menu(h) {
            let i = self.win_index(h);
            let j = self.menu_index(h);
            assert(0 <= i < self.windows@.len() && self.windows@[i].handle == h);
            assert(0 <= j < self.menus@.len() && self.menus@[j].handle == h);
            assert(self.windows@[i].handle != self.menus@[j].handle);
        }
    }

    /// Command ids never collide: two items or separators, in any two live
    /// menus, that carry the same command id are one and the same entry. The
    /// global counter hands each id out once.
    pub proof fn lemma_command_ids_unique(self, m1: int, e1: int, m2: int, e2: int)
        requires
            self.wf(),
            self.valid_entry(m1, e1),
            self.valid_entry(m2, e2),
            self.menus@[m1].entries@[e1].is_cmd(),
            self.menus@[m2].entries@[e2].is_cmd(),
            self.menus@[m1].entries@[e1].id == self.menus@[m2].entries@[e2].id,
        ensures
            m1 == m2 && e1 == e2,
    {
    }

    /// Find the index of the window with handle `h`.
    pub fn find_window(&self, h: u64) -> (r: Option<usize>)
        ensures
            (r matches Some(i) ==> i < self.windows@.len() && self.windows@[i as int].handle == h
                && self.has_window(h)),
            (r is None ==> !self.has_window(h)),
    {
        let mut i: usize = 0;
        while i < self.windows.len()
            invariant
                i <= self.windows@.len(),
                forall|k: int| 0 <= k < i ==> (#[trigger] self.windows@[k]).handle != h,
            decreases self.windows@.len() - i,
        {
            if self.windows[i].handle == h {
                return Some(i);
            }
            i = i + 1;
        }
        None
    }

    /// Whatever changes, a window keeps its place: an update that keeps the
    /// handle at one index and touches nothing else leaves the state well
    /// formed, and every window reachable as it was.
    pub proof fn lemma_wf_after_window_update(pre: System, post: System, i: int)
        requires
            pre.wf(),
            0 <= i < pre.windows@.len(),
            post.windows@ == pre.windows@.update(i, post.windows@[i]),
            post.windows@[i].handle == pre.windows@[i].handle,
            (post.windows@[i].menubar matches Some(mb) ==> pre.has_menu(mb)),
            post.menus@ == pre.menus@,
            post.next_handle == pre.next_handle,
            post.next_menu_item_id == pre.next_menu_item_id,
        ensures
            post.wf(),
            post.has_window(pre.windows@[i].handle),
            post.win_index(pre.windows@[i].handle) == i,
            (forall|h2: u64| post.has_window(h2) == pre.has_window(h2)),
            (forall|h2: u64|
                h2 != pre.windows@[i].handle && pre.has_window(h2) ==> post.window(h2)
                    == pre.window(h2) && post.win_index(h2) == pre.win_index(h2)),
    {
        let h = pre.windows@[i].handle;
        assert forall|k: int| 0 <= k < post.windows@.len() implies (#[trigger] post.windows@[k]).handle
            == pre.windows@[k].handle by {
            if k != i {
                assert(post.windows@[k] == pre.windows@[k]);
            }
        }
        assert(post.wf_windows());
        assert(post.wf_menus());
        assert forall|k: int|
            0 <= k < post.windows@.len() implies ((#[trigger] post.windows@[k]).menubar matches Some(
            mb,
        ) ==> post.has_menu(mb)) by {
            if k != i {
                assert(post.windows@[k] == pre.windows@[k]);
            }
        }
        post.lemma_win_index(i, h);
        assert forall|h2: u64| post.has_window(h2) == pre.has_window(h2) by {
            if pre.has_window(h2) {
                let k = pre.win_index(h2);
                post.lemma_win_index(k, h2);
            }
            if post.has_window(h2) {
                let k = post.win_index(h2);
                pre.lemma_win_index(k, h2);
            }
        }
        assert forall|h2: u64| h2 != h && pre.has_window(h2) implies post.window(h2) == pre.window(
            h2,
        ) && post.win_index(h2) == pre.win_index(h2) by {
            let k = pre.win_index(h2);
            pre.lemma_win_index(k, h2);
            assert(k != i);
            assert(post.windows@[k] == pre.windows@[k]);
            post.lemma_win_index(k, h2);
        }
    }

    /// An update of one menu that keeps its handle, the shape of its entries
    /// (which entries carry a command id, and which id) and the counters
    /// leaves the state well formed, and every menu reachable as it was.
    pub proof fn lemma_wf_after_menu_same_ids(pre: System, post: System, i: int)
        requires
            pre.wf(),
            0 <= i < pre.menus@.len(),
            post.menus@ == pre.menus@.update(i, post.menus@[i]),
            post.menus@[i].handle == pre.menus@[i].handle,
            post.menus@[i].entries@.len() == pre.menus@[i].entries@.len(),
            (forall|e: int|
                0 <= e < pre.menus@[i].entries@.len()
                    ==> (#[trigger] post.menus@[i].entries@[e]).is_cmd()
                    == pre.menus@[i].entries@[e].is_cmd() && post.menus@[i].entries@[e].id
                    == pre.menus@[i].entries@[e].id),
            post.windows@ == pre.windows@,
            post.next_handle == pre.next_handle,
            post.next_menu_item_id == pre.next_menu_item_id,
        ensures
            post.wf(),
            post.has_menu(pre.menus@[i].handle),
            post.menu_index(pre.menus@[i].handle) == i,
            (forall|h2: u64| post.has_menu(h2) == pre.has_menu(h2)),
            (forall|h2: u64|
                h2 != pre.menus@[i].handle && pre.has_menu(h2) ==> post.menu(h2) == pre.menu(h2)
                    && post.menu_index(h2) == pre.menu_index(h2)),
    {
        let h = pre.menus@[i].handle;
        assert forall|k: int| 0 <= k < post.menus@.len() implies (#[trigger] post.menus@[k]).handle
            == pre.menus@[k].handle by {
            if k != i {
                assert(post.menus@[k] == pre.menus@[k]);
            }
        }
        assert(post.wf_windows());
        assert(post.wf_menus());
        assert forall|k: int|
            0 <= k < post.windows@.len() implies ((#[trigger] post.windows@[k]).menubar matches Some(
            mb,
        ) ==> post.has_menu(mb)) by {
            if post.windows@[k].menubar is Some {
                let mb = post.windows@[k].menubar->Some_0;
                assert(post.windows@[k] == pre.windows@[k]);
                assert(pre.has_menu(mb));
                let q = pre.menu_index(mb);
                pre.lemma_menu_index(q, mb);
                post.lemma_menu_index(q, mb);
            }
        }
        assert(post.wf_menubars());
        assert forall|m: int, e: int|
            post.valid_entry(m, e) implies pre.valid_entry(m, e) && (#[trigger] post.menus@[m].entries@[e]).is_cmd()
            == pre.menus@[m].entries@[e].is_cmd() && post.menus@[m].entries@[e].id
            == pre.menus@[m].entries@[e].id by {
            if m != i {
                assert(post.menus@[m] == pre.menus@[m]);
            }
        }
        assert(post.wf_menu_ids());
        assert(post.wf_menu_ids_unique());
        post.lemma_menu_index(i, h);
        assert forall|h2: u64| post.has_menu(h2) == pre.has_menu(h2) by {
            if pre.has_menu(h2) {
                let k = pre.menu_index(h2);
                post.lemma_menu_index(k, h2);
            }
            if post.has_menu(h2) {
                let k = post.menu_index(h2);
                pre.lemma_menu_index(k, h2);
            }
        }
        assert forall|h2: u64| h2 != h && pre.has_menu(h2) implies post.menu(h2) == pre.menu(h2)
            && post.menu_index(h2) == pre.menu_index(h2) by {
            let k = pre.menu_index(h2);
            pre.lemma_menu_index(k, h2);
            assert(k != i);
            assert(post.menus@[k] == pre.menus@[k]);
            post.lemma_menu_index(k, h2);
        }
    }

    /// Appending one entry to one menu leaves the state well formed, as long
    /// as a command-carrying entry takes the next id from the counter.
    pub proof fn lemma_wf_after_menu_append(pre: System, post: System, i: int, ne: MenuEntry)
        requires
            pre.wf(),
            0 <= i < pre.menus@.len(),
            post.menus@ == pre.menus@.update(i, post.menus@[i]),
            post.menus@[i].handle == pre.menus@[i].handle,
            post.menus@[i].entries@ == pre.menus@[i].entries@.push(ne),
            post.next_menu_item_id >= pre.next_menu_item_id,
            (ne.is_cmd() ==> ne.id > pre.next_menu_item_id && 1 <= ne.id
                <= post.next_menu_item_id),
            (!ne.is_cmd() ==> post.next_menu_item_id == pre.next_menu_item_id),
            post.windows@ == pre.windows@,
            post.next_handle == pre.next_handle,
        ensures
            post.wf(),
            post.has_menu(pre.menus@[i].handle),
            post.menu_index(pre.menus@[i].handle) == i,
            (forall|h2: u64| post.has_menu(h2) == pre.has_menu(h2)),
            (forall|h2: u64|
                h2 != pre.menus@[i].handle && pre.has_menu(h2) ==> post.menu(h2) == pre.menu(h2)
                    && post.menu_index(h2) == pre.menu_index(h2)),
    {
        let h = pre.menus@[i].handle;
        let oldlen = pre.menus@[i].entries@.len() as int;
        assert forall|k: int| 0 <= k < post.menus@.len() implies (#[trigger] post.menus@[k]).handle
            == pre.menus@[k].handle by {
            if k != i {
                assert(post.menus@[k] == pre.menus@[k]);
            }
        }
        assert(post.wf_windows());
        assert(post.wf_menus());
        assert forall|k: int|
            0 <= k < post.windows@.len() implies ((#[trigger] post.windows@[k]).menubar matches Some(
            mb,
        ) ==> post.has_menu(mb)) by {
            if post.windows@[k].menubar is Some {
                let mb = post.windows@[k].menubar->Some_0;
                assert(post.windows@[k] == pre.windows@[k]);
                assert(pre.has_menu(mb));
                let q = pre.menu_index(mb);
                pre.lemma_menu_index(q, mb);
                post.lemma_menu_index(q, mb);
            }
        }
        assert(post.wf_menubars());
        assert forall|m: int, e: int|
            post.valid_entry(m, e) && !(m == i && e == oldlen) implies pre.valid_entry(m, e) && (
            #[trigger] post.menus@[m].entries@[e]) == pre.menus@[m].entries@[e] by {
            if m != i {
                assert(post.menus@[m] == pre.menus@[m]);
            } else {
                assert(post.menus@[m].entries@[e] == pre.menus@[m].entries@[e]);
            }
        }
        assert(post.menus@[i].entries@[oldlen] == ne);
        assert forall|m: int, e: int|
            post.valid_entry(m, e) && (#[trigger] post.menus@[m].entries@[e]).is_cmd() implies 1
            <= post.menus@[m].entries@[e].id <= post.next_menu_item_id by {
            if m == i && e == oldlen {
            } else {
                assert(post.menus@[m].entries@[e] == pre.menus@[m].entries@[e]);
            }
        }
        assert(post.wf_menu_ids());
        assert forall|m1: int, e1: int, m2: int, e2: int|
            post.valid_entry(m1, e1) && post.valid_entry(m2, e2) && (m1 != m2 || e1 != e2) && (
            #[trigger] post.menus@[m1].entries@[e1]).is_cmd() && (#[trigger] post.menus@[m2].entries@[e2]).is_cmd()
            implies post.menus@[m1].entries@[e1].id != post.menus@[m2].entries@[e2].id by {
            if m1 == i && e1 == oldlen {
                assert(post.menus@[m2].entries@[e2] == pre.menus@[m2].entries@[e2]);
            } else if m2 == i && e2 == oldlen {
                assert(post.menus@[m1].entries@[e1] == pre.menus@[m1].entries@[e1]);
            } else {
                assert(post.menus@[m1].entries@[e1] == pre.menus@[m1].entries@[e1]);
                assert(post.menus@[m2].entries@[e2] == pre.menus@[m2].entries@[e2]);
            }
        }
        assert(post.wf_menu_ids_unique());
        post.lemma_menu_index(i, h);
        assert forall|h2: u64| post.has_menu(h2) == pre.has_menu(h2) by {
            if pre.has_menu(h2) {
                let k = pre.menu_index(h2);
                post.lemma_menu_index(k, h2);
            }
            if post.has_menu(h2) {
                let k = post.menu_index(h2);
                pre.lemma_menu_index(k, h2);
            }
        }
        assert forall|h2: u64| h2 != h && pre.has_menu(h2) implies post.menu(h2) == pre.menu(h2)
            && post.menu_index(h2) == pre.menu_index(h2) by {
            let k = pre.menu_index(h2);
            pre.lemma_menu_index(k, h2);
            assert(k != i);
            assert(post.menus@[k] == pre.menus@[k]);
            post.lemma_menu_index(k, h2);
        }
    }

    /// Removing one entry from one menu leaves the state well formed.
    pub proof fn lemma_wf_after_menu_entry_remove(pre: System, post: System, i: int, j: int)
        requires
            pre.wf(),
            0 <= i < pre.menus@.len(),
            0 <= j < pre.menus@[i].entries@.len(),
            post.menus@ == pre.menus@.update(i, post.menus@[i]),
            post.menus@[i].handle == pre.menus@[i].handle,
            post.menus@[i].entries@ == pre.menus@[i].entries@.remove(j),
            post.windows@ == pre.windows@,
            post.next_handle == pre.next_handle,
            post.next_menu_item_id == pre.next_menu_item_id,
        ensures
            post.wf(),
            post.has_menu(pre.menus@[i].handle),
            post.menu_index(pre.menus@[i].handle) == i,
            (forall|h2: u64| post.has_menu(h2) == pre.has_menu(h2)),
            (forall|h2: u64|
                h2 != pre.menus@[i].handle && pre.has_menu(h2) ==> post.menu(h2) == pre.menu(h2)
                    && post.menu_index(h2) == pre.menu_index(h2)),
    {
        let h = pre.menus@[i].handle;
        assert forall|k: int| 0 <= k < post.menus@.len() implies (#[trigger] post.menus@[k]).handle
            == pre.menus@[k].handle by {
            if k != i {
                assert(post.menus@[k] == pre.menus@[k]);
            }
        }
        assert(post.wf_windows());
        assert(post.wf_menus());
        assert forall|k: int|
            0 <= k < post.windows@.len() implies ((#[trigger] post.windows@[k]).menubar matches Some(
            mb,
        ) ==> post.has_menu(mb)) by {
            if post.windows@[k].menubar is Some {
                let mb = post.windows@[k].menubar->Some_0;
                assert(post.windows@[k] == pre.windows@[k]);
                assert(pre.has_menu(mb));
                let q = pre.menu_index(mb);
                pre.lemma_menu_index(q, mb);
                post.lemma_menu_index(q, mb);
            }
        }
        assert(post.wf_menubars());
        // every entry of the new state is an entry of the old state, at a
        // position that only moves within the changed menu
        assert forall|m: int, e: int|
            post.valid_entry(m, e) implies exists|e0: int|
            pre.valid_entry(m, e0) && (#[trigger] post.menus@[m].entries@[e])
                == pre.menus@[m].entries@[e0] && (m != i ==> e0 == e) && (m == i ==> (e0 == e || e0
                == e + 1) && e0 != j) by {
            if m != i {
                assert(post.menus@[m] == pre.menus@[m]);
                assert(pre.valid_entry(m, e) && post.menus@[m].entries@[e]
                    == pre.menus@[m].entries@[e]);
            } else {
                if e < j {
                    assert(pre.valid_entry(m, e) && post.menus@[m].entries@[e]
                        == pre.menus@[m].entries@[e]);
                } else {
                    assert(pre.valid_entry(m, e + 1) && post.menus@[m].entries@[e]
                        == pre.menus@[m].entries@[e + 1]);
                }
            }
        }
        assert forall|m: int, e: int|
            post.valid_entry(m, e) && (#[trigger] post.menus@[m].entries@[e]).is_cmd() implies 1
            <= post.menus@[m].entries@[e].id <= post.next_menu_item_id by {
            let e0 = choose|e0: int|
                pre.valid_entry(m, e0) && post.menus@[m].entries@[e] == pre.menus@[m].entries@[e0]
                    && (m != i ==> e0 == e) && (m == i ==> (e0 == e || e0 == e + 1) && e0 != j);
            assert(pre.menus@[m].entries@[e0].is_cmd());
        }
        assert(post.wf_menu_ids());
        assert forall|m1: int, e1: int, m2: int, e2: int|
            post.valid_entry(m1, e1) && post.valid_entry(m2, e2) && (m1 != m2 || e1 != e2) && (
            #[trigger] post.menus@[m1].entries@[e1]).is_cmd() && (#[trigger] post.menus@[m2].entries@[e2]).is_cmd()
            implies post.menus@[m1].entries@[e1].id != post.menus@[m2].entries@[e2].id by {
            let a = choose|e0: int|
                pre.valid_entry(m1, e0) && post.menus@[m1].entries@[e1]
                    == pre.menus@[m1].entries@[e0] && (m1 != i ==> e0 == e1) && (m1 == i ==> (e0
                    == e1 || e0 == e1 + 1) && e0 != j);
            let b = choose|e0: int|
                pre.valid_entry(m2, e0) && post.menus@[m2].entries@[e2]
                    == pre.menus@[m2].entries@[e0] && (m2 != i ==> e0 == e2) && (m2 == i ==> (e0
                    == e2 || e0 == e2 + 1) && e0 != j);
            assert(pre.menus@[m1].entries@[a].is_cmd());
            assert(pre.menus@[m2].entries@[b].is_cmd());
            assert(m1 != m2 || a != b);
        }
        assert(post.wf_menu_ids_unique());
        post.lemma_menu_index(i, h);
        assert forall|h2: u64| post.has_menu(h2) == pre.has_menu(h2) by {
            if pre.has_menu(h2) {
                let k = pre.menu_index(h2);
                post.lemma_menu_index(k, h2);
            }
            if post.has_menu(h2) {
                let k = post.menu_index(h2);
                pre.lemma_menu_index(k, h2);
            }
        }
        assert forall|h2: u64| h2 != h && pre.has_menu(h2) implies post.menu(h2) == pre.menu(h2)
            && post.menu_index(h2) == pre.menu_index(h2) by {
            let k = pre.menu_index(h2);
            pre.lemma_menu_index(k, h2);
            assert(k != i);
            assert(post.menus@[k] == pre.menus@[k]);
            post.lemma_menu_index(k, h2);
        }
    }

    /// Allocate a window: a fresh handle, never handed out before.
    pub(crate) fn create_window_raw(
        &mut self,
        class_name: String,
        title: String,
        position: (i32, i32),
        size: (u32, u32),
        style: u32,
        ex_style: u32,
        parent: u64,
    ) -> (h: u64)
        requires
            old(self).wf(),
            old(self).next_handle < u64::MAX,
        ensures
            final(self).wf(),
            h == old(self).next_handle,
            !old(self).has_window(h),
            !old(self).has_menu(h),
            final(self).next_handle == old(self).next_handle + 1,
            final(self).windows@ == old(self).windows@.push(
                (Window {
                    handle: h,
                    class_name: class_name,
                    title: title,
                    position: position,
                    size: size,
                    style: style,
                    ex_style: ex_style,
                    parent: parent,
                    font: None,
                    menubar: None,
                    text_limit: 0,
                }),
            ),
            final(self).has_window(h),
            final(self).win_index(h) == old(self).windows@.len(),
            final(self).window(h) == final(self).windows@.last(),
            final(self).menus@ == old(self).menus@,
            final(self).next_menu_item_id == old(self).next_menu_item_id,
            final(self).focus == old(self).focus,
            final(self).popup == old(self).popup,
            (forall|h2: u64| h2 != h ==> final(self).has_window(h2) == old(self).has_window(h2)),
            (forall|h2: u64|
                h2 != h && old(self).has_window(h2) ==> final(self).window(h2) == old(self).window(
                    h2,
                )),
            (forall|h2: u64| final(self).has_menu(h2) == old(self).has_menu(h2)),
            (forall|h2: u64|
                old(self).has_menu(h2) ==> final(self).menu(h2) == old(self).menu(h2)
                    && final(self).menu_index(h2) == old(self).menu_index(h2)),
    {
        let h = self.next_handle;
        self.next_handle = self.next_handle + 1;
        let w = Window {
            handle: h,
            class_name,
            title,
            position,
            size,
            style,
            ex_style,
            parent,
            font: None,
            menubar: None,
            text_limit: 0,
        };
        self.windows.push(w);
        proof {
            let pre = *old(self);
            let post = *self;
            let n = pre.windows@.len() as int;
            assert forall|k: int| 0 <= k < n implies (#[trigger] pre.windows@[k]).handle != h by {}
            assert(!pre.has_window(h));
            assert(!pre.has_menu(h));
            assert(post.wf_windows());
            assert(post.wf_menus());
            assert forall|k: int|
                0 <= k < post.windows@.len() implies ((#[trigger] post.windows@[k]).menubar matches Some(
                mb,
            ) ==> post.has_menu(mb)) by {
                if k < n {
                    assert(post.windows@[k] == pre.windows@[k]);
                    if post.windows@[k].menubar is Some {
                        let mb = post.windows@[k].menubar->Some_0;
                        assert(pre.has_menu(mb));
                        let q = pre.menu_index(mb);
                        post.lemma_menu_index(q, mb);
                    }
                }
            }
            assert forall|m: int, e: int|
                post.valid_entry(m, e) implies pre.valid_entry(m, e) by {}
            assert(post.wf_menu_ids());
            assert(post.wf_menu_ids_unique());
            post.lemma_win_index(n, h);
            assert forall|h2: u64| h2 != h implies final(self).has_window(h2) == old(self).has_window(
                h2,
            ) by {
                if pre.has_window(h2) {
                    let k = pre.win_index(h2);
                    post.lemma_win_index(k, h2);
                }
                if post.has_window(h2) {
                    let k = post.win_index(h2);
                    assert(k != n);
                    pre.lemma_win_index(k, h2);
                }
            }
            assert forall|h2: u64| h2 != h && pre.has_window(h2) implies post.window(h2)
                == pre.window(h2) by {
                let k = pre.win_index(h2);
                pre.lemma_win_index(k, h2);
                post.lemma_win_index(k, h2);
            }
            assert forall|h2: u64| final(self).has_menu(h2) == old(self).has_menu(h2) by {
                if pre.has_menu(h2) {
                    let k = pre.menu_index(h2);
                    post.lemma_menu_index(k, h2);
                }
                if post.has_menu(h2) {
                    let k = post.menu_index(h2);
                    pre.lemma_menu_index(k, h2);
                }
            }
            assert forall|h2: u64| old(self).has_menu(h2) implies final(self).menu(h2) == old(
                self,
            ).menu(h2) && final(self).menu_index(h2) == old(self).menu_index(h2) by {
                let k = pre.menu_index(h2);
                pre.lemma_menu_index(k, h2);
                post.lemma_menu_index(k, h2);
            }
        }
        h
    }

    /// Allocate a menu: a fresh handle, never handed out before. `popup` says
    /// whether it is a popup menu or a menu bar menu.
    pub(crate) fn create_menu_raw(&mut self, popup: bool) -> (h: u64)
        requires
            old(self).wf(),
            old(self).next_handle < u64::MAX,
        ensures
            final(self).wf(),
            h == old(self).next_handle,
            !old(self).has_window(h),
            !old(self).has_menu(h),
            final(self).next_handle == old(self).next_handle + 1,
            final(self).menus@.len() == old(self).menus@.len() + 1,
            final(self).menus@ == old(self).menus@.push(final(self).menus@.last()),
            final(self).has_menu(h),
            final(self).menu_index(h) == old(self).menus@.len(),
            final(self).menu(h) == final(self).menus@.last(),
            final(self).menu(h).handle == h,
            final(self).menu(h).popup == popup,
            final(self).menu(h).notify_by_pos == false,
            final(self).menu(h).entries@ =~= Seq::<MenuEntry>::empty(),
            final(self).windows@ == old(self).windows@,
            final(self).next_menu_item_id == old(self).next_menu_item_id,
            final(self).focus == old(self).focus,
            final(self).popup == old(self).popup,
            (forall|h2: u64| h2 != h ==> final(self).has_menu(h2) == old(self).has_menu(h2)),
            (forall|h2: u64|
                h2 != h && old(self).has_menu(h2) ==> final(self).menu(h2) == old(self).menu(h2)
                    && final(self).menu_index(h2) == old(self).menu_index(h2)),
            (forall|h2: u64| final(self).has_window(h2) == old(self).has_window(h2)),
            (forall|h2: u64|
                old(self).has_window(h2) ==> final(self).window(h2) == old(self).window(h2)),
    {
        let h = self.next_handle;
        self.next_handle = self.next_handle + 1;
        let md = MenuData { handle: h, popup, notify_by_pos: false, entries: Vec::new() };
        self.menus.push(md);
        proof {
            let pre = *old(self);
            let post = *self;
            let n = pre.menus@.len() as int;
            assert forall|k: int| 0 <= k < n implies (#[trigger] pre.menus@[k]).handle != h by {}
            assert(!pre.has_menu(h));
            assert(!pre.has_window(h));
            assert(post.wf_windows());
            assert(post.wf_menus());
            assert forall|k: int|
                0 <= k < post.windows@.len() implies ((#[trigger] post.windows@[k]).menubar matches Some(
                mb,
            ) ==> post.has_menu(mb)) by {
                assert(post.windows@[k] == pre.windows@[k]);
                if post.windows@[k].menubar is Some {
                    let mb = post.windows@[k].menubar->Some_0;
                    assert(pre.has_menu(mb));
                    let q = pre.menu_index(mb);
                    post.lemma_menu_index(q, mb);
                }
            }
            assert forall|m: int, e: int|
                post.valid_entry(m, e) implies pre.valid_entry(m, e) && (
            #[trigger] post.menus@[m].entries@[e]) == pre.menus@[m].entries@[e] by {
                assert(post.menus@[n].entries@.len() == 0);
                assert(m != n);
                assert(post.menus@[m] == pre.menus@[m]);
            }
            assert(post.wf_menu_ids());
            assert(post.wf_menu_ids_unique());
            post.lemma_menu_index(n, h);
            assert forall|h2: u64| h2 != h implies final(self).has_menu(h2) == old(self).has_menu(
                h2,
            ) by {
                if pre.has_menu(h2) {
                    let k = pre.menu_index(h2);
                    post.lemma_menu_index(k, h2);
                }
                if post.has_menu(h2) {
                    let k = post.menu_index(h2);
                    assert(k != n);
                    pre.lemma_menu_index(k, h2);
                }
            }
            assert forall|h2: u64| h2 != h && pre.has_menu(h2) implies post.menu(h2) == pre.menu(
                h2,
            ) && post.menu_index(h2) == pre.menu_index(h2) by {
                let k = pre.menu_index(h2);
                pre.lemma_menu_index(k, h2);
                post.lemma_menu_index(k, h2);
            }
            assert forall|h2: u64| final(self).has_window(h2) == old(self).has_window(h2) by {
                if pre.has_window(h2) {
                    let k = pre.win_index(h2);
                    post.lemma_win_index(k, h2);
                }
                if post.has_window(h2) {
                    let k = post.win_index(h2);
                    pre.lemma_win_index(k, h2);
                }
            }
            assert forall|h2: u64| old(self).has_window(h2) implies final(self).window(h2) == old(
                self,
            ).window(h2) by {
                let k = pre.win_index(h2);
                pre.lemma_win_index(k, h2);
                post.lemma_win_index(k, h2);
            }
        }
        h
    }

    /// Append an item or separator to the menu with handle `h`, drawing its
    /// command id from the global counter.
    pub(crate) fn append_menu_cmd(
        &mut self,
        h: u64,
        separator: bool,
        text: String,
        enabled: bool,
    ) -> (id: u32)
        requires
            old(self).wf(),
            old(self).has_menu(h),
            old(self).next_menu_item_id < u32::MAX,
        ensures
            final(self).wf(),
            id == old(self).next_menu_item_id + 1,
            final(self).next_menu_item_id == id,
            final(self).next_handle == old(self).next_handle,
            final(self).windows@ == old(self).windows@,
            final(self).focus == old(self).focus,
            final(self).popup == old(self).popup,
            final(self).menus@.len() == old(self).menus@.len(),
            (forall|h2: u64| final(self).has_menu(h2) == old(self).has_menu(h2)),
            (forall|h2: u64|
                h2 != h && old(self).has_menu(h2) ==> final(self).menu(h2) == old(self).menu(h2)
                    && final(self).menu_index(h2) == old(self).menu_index(h2)),
            final(self).menu_index(h) == old(self).menu_index(h),
            final(self).menu(h).handle == h,
            final(self).menu(h).popup == old(self).menu(h).popup,
            final(self).menu(h).notify_by_pos == old(self).menu(h).notify_by_pos,
            final(self).menu(h).entries@ == old(self).menu(h).entries@.push(
                (MenuEntry {
                    kind: (if separator {
                        MenuEntryKind::Separator
                    } else {
                        MenuEntryKind::Item
                    }),
                    id: id,
                    text: text,
                    enabled: enabled,
                }),
            ),
    {
        let i = match self.find_menu(h) {
            Some(i) => i,
            None => {
                proof {
                    assert(false);
                }
                0
            },
        };
        self.next_menu_item_id = self.next_menu_item_id + 1;
        let id = self.next_menu_item_id;
        let entry = MenuEntry {
            kind: if separator {
                MenuEntryKind::Separator
            } else {
                MenuEntryKind::Item
            },
            id,
            text,
            enabled,
        };
        let ghost ne = entry;
        let mut md = self.menus.remove(i);
        md.entries.push(entry);
        self.menus.insert(i, md);
        proof {
            let pre = *old(self);
            let post = *self;
            pre.lemma_menu_index(i as int, h);
            assert(post.menus@ =~= pre.menus@.update(i as int, post.menus@[i as int]));
            assert(post.menus@[i as int].entries@ == pre.menus@[i as int].entries@.push(ne));
            System::lemma_wf_after_menu_append(pre, post, i as int, ne);
        }
        id
    }

    /// Append a submenu entry to the menu with handle `h`. The entry carries
    /// no command id.
    pub(crate) fn append_menu_submenu(&mut self, h: u64, submenu: u64, text: String, enabled: bool)
        requires
            old(self).wf(),
            old(self).has_menu(h),
        ensures
            final(self).wf(),
            final(self).next_menu_item_id == old(self).next_menu_item_id,
            final(self).next_handle == old(self).next_handle,
            final(self).windows@ == old(self).windows@,
            final(self).focus == old(self).focus,
            final(self).popup == old(self).popup,
            final(self).menus@.len() == old(self).menus@.len(),
            (forall|h2: u64| final(self).has_menu(h2) == old(self).has_menu(h2)),
            (forall|h2: u64|
                h2 != h && old(self).has_menu(h2) ==> final(self).menu(h2) == old(self).menu(h2)
                    && final(self).menu_index(h2) == old(self).menu_index(h2)),
            final(self).menu_index(h) == old(self).menu_index(h),
            final(self).menu(h).handle == h,
            final(self).menu(h).popup == old(self).menu(h).popup,
            final(self).menu(h).notify_by_pos == old(self).menu(h).notify_by_pos,
            final(self).menu(h).entries@ == old(self).menu(h).entries@.push(
                (MenuEntry {
                    kind: MenuEntryKind::Submenu(submenu),
                    id: 0u32,
                    text: text,
                    enabled: enabled,
                }),
            ),
    {
        let i = match self.find_menu(h) {
            Some(i) => i,
            None => {
                proof {
                    assert(false);
                }
                0
            },
        };
        let entry = MenuEntry { kind: MenuEntryKind::Submenu(submenu), id: 0u32, text, enabled };
        let ghost ne = entry;
        let mut md = self.menus.remove(i);
        md.entries.push(entry);
        self.menus.insert(i, md);
        proof {
            let pre = *old(self);
            let post = *self;
            pre.lemma_menu_index(i as int, h);
            assert(post.menus@ =~= pre.menus@.update(i as int, post.menus@[i as int]));
            assert(post.menus@[i as int].entries@ == pre.menus@[i as int].entries@.push(ne));
            System::lemma_wf_after_menu_append(pre, post, i as int, ne);
        }
    }

    /// Dropping one menu from the table keeps every other part of the state
    /// well formed; only the menu-bar references may need mending.
    pub proof fn lemma_menus_after_menu_remove(pre: System, post: System, i: int)
        requires
            pre.wf(),
            0 <= i < pre.menus@.len(),
            post.menus@ == pre.menus@.remove(i),
            post.next_handle == pre.next_handle,
            post.next_menu_item_id == pre.next_menu_item_id,
            post.windows@.len() == pre.windows@.len(),
            (forall|k: int|
                0 <= k < pre.windows@.len() ==> (#[trigger] post.windows@[k]).handle
                    == pre.windows@[k].handle),
        ensures
            post.wf_windows(),
            post.wf_menus(),
            post.wf_menu_ids(),
            post.wf_menu_ids_unique(),
            !post.has_menu(pre.menus@[i].handle),
            (forall|h2: u64|
                h2 != pre.menus@[i].handle ==> post.has_menu(h2) == pre.has_menu(h2)),
            (forall|h2: u64|
                h2 != pre.menus@[i].handle && pre.has_menu(h2) ==> post.menu(h2) == pre.menu(h2)),
    {
        let h = pre.menus@[i].handle;
        assert forall|k: int| 0 <= k < post.menus@.len() implies (#[trigger] post.menus@[k])
            == pre.menus@[(if k < i { k } else { k + 1 })] by {}
        assert(post.wf_windows());
        assert(post.wf_menus());
        assert forall|m: int, e: int|
            post.valid_entry(m, e) implies pre.valid_entry((if m < i { m } else { m + 1 }), e) && (
        #[trigger] post.menus@[m].entries@[e]) == pre.menus@[(if m < i { m } else { m + 1 })].entries@[e] by {}
        assert(post.wf_menu_ids());
        assert forall|m1: int, e1: int, m2: int, e2: int|
            post.valid_entry(m1, e1) && post.valid_entry(m2, e2) && (m1 != m2 || e1 != e2) && (
            #[trigger] post.menus@[m1].entries@[e1]).is_cmd() && (#[trigger] post.menus@[m2].entries@[e2]).is_cmd()
            implies post.menus@[m1].entries@[e1].id != post.menus@[m2].entries@[e2].id by {
            let o1 = if m1 < i { m1 } else { m1 + 1 };
            let o2 = if m2 < i { m2 } else { m2 + 1 };
            assert(post.menus@[m1].entries@[e1] == pre.menus@[o1].entries@[e1]);
            assert(post.menus@[m2].entries@[e2] == pre.menus@[o2].entries@[e2]);
            assert(o1 != o2 || e1 != e2);
        }
        assert(post.wf_menu_ids_unique());
        assert forall|k: int| 0 <= k < post.menus@.len() implies (#[trigger] post.menus@[k]).handle
            != h by {}
        assert(!post.has_menu(h));
        assert forall|h2: u64| h2 != h implies post.has_menu(h2) == pre.has_menu(h2) by {
            if pre.has_menu(h2) {
                let k = pre.menu_index(h2);
                pre.lemma_menu_index(k, h2);
                let k2 = if k < i {
                    k
                } else {
                    k - 1
                };
                assert(post.menus@[k2] == pre.menus@[k]);
                post.lemma_menu_index(k2, h2);
            }
            if post.has_menu(h2) {
                let k = post.menu_index(h2);
                let k0 = if k < i {
                    k
                } else {
                    k + 1
                };
                pre.lemma_menu_index(k0, h2);
            }
        }
        assert forall|h2: u64| h2 != h && pre.has_menu(h2) implies post.menu(h2) == pre.menu(
            h2,
        ) by {
            let k = pre.menu_index(h2);
            pre.lemma_menu_index(k, h2);
            let k2 = if k < i {
                k
            } else {
                k - 1
            };
            assert(post.menus@[k2] == pre.menus@[k]);
            post.lemma_menu_index(k2, h2);
        }
    }

    /// Destroy the menu with handle `h`: drop it from the menu table and
    /// detach it from any window that holds it as a menu bar. A handle that
    /// names no live menu is left alone. Entries of other menus that open `h`
    /// keep the dead reference; handles are never reused, so it can never
    /// name another menu.
    pub(crate) fn destroy_menu(&mut self, h: u64)
        requires
            old(self).wf(),
        ensures
            final(self).wf(),
            !final(self).has_menu(h),
            (old(self).has_menu(h) ==> final(self).menus@ == old(self).menus@.remove(
                old(self).menu_index(h),
            )),
            (!old(self).has_menu(h) ==> final(self).menus@ == old(self).menus@
                && *final(self) == *old(self)),
            (forall|h2: u64| h2 != h ==> final(self).has_menu(h2) == old(self).has_menu(h2)),
            (forall|h2: u64|
                h2 != h && old(self).has_menu(h2) ==> final(self).menu(h2) == old(self).menu(h2)),
            final(self).windows@.len() == old(self).windows@.len(),
            (forall|k: int|
                0 <= k < old(self).windows@.len() ==> (#[trigger] final(self).windows@[k]) == (
                if old(self).windows@[k].menubar == Some(h) {
                    (Window { menubar: None, ..old(self).windows@[k] })
                } else {
                    old(self).windows@[k]
                })),
            final(self).next_handle == old(self).next_handle,
            final(self).next_menu_item_id == old(self).next_menu_item_id,
            final(self).focus == old(self).focus,
            final(self).popup == old(self).popup,
    {
        let ghost pre = *old(self);
        let i = match self.find_menu(h) {
            Some(i) => i,
            None => {
                proof {
                    assert forall|k: int|
                        0 <= k < pre.windows@.len() implies (#[trigger] pre.windows@[k]).menubar
                        != Some(h) by {
                        if pre.windows@[k].menubar == Some(h) {
                            assert(pre.has_menu(h));
                        }
                    }
                }
                return ;
            },
        };
        self.menus.remove(i);
        proof {
            pre.lemma_menu_index(i as int, h);
            System::lemma_menus_after_menu_remove(pre, *self, i as int);
        }
        let mut k: usize = 0;
        while k < self.windows.len()
            invariant
                k <= self.windows@.len(),
                self.windows@.len() == pre.windows@.len(),
                self.menus@ == pre.menus@.remove(i as int),
                self.next_handle == pre.next_handle,
                self.next_menu_item_id == pre.next_menu_item_id,
                self.focus == pre.focus,
                self.popup == pre.popup,
                pre.wf(),
                0 <= i < pre.menus@.len(),
                pre.menus@[i as int].handle == h,
                pre.menu_index(h) == i,
                (forall|k2: int|
                    0 <= k2 < k ==> (#[trigger] self.windows@[k2]) == (
                    if pre.windows@[k2].menubar == Some(h) {
                        (Window { menubar: None, ..pre.windows@[k2] })
                    } else {
                        pre.windows@[k2]
                    })),
                (forall|k2: int|
                    k <= k2 < pre.windows@.len() ==> (#[trigger] self.windows@[k2])
                        == pre.windows@[k2]),
            decreases self.windows@.len() - k,
        {
            let ghost ws0 = self.windows@;
            let is_target = match self.windows[k].menubar {
                Some(mb) => mb == h,
                None => false,
            };
            if is_target {
                let mut w = self.windows.remove(k);
                w.menubar = None;
                let ghost w2 = w;
                self.windows.insert(k, w);
                proof {
                    assert(self.windows@ =~= ws0.update(k as int, w2));
                }
            }
            k = k + 1;
        }
        proof {
            let post = *self;
            assert forall|k2: int|
                0 <= k2 < pre.windows@.len() implies (#[trigger] post.windows@[k2]).handle
                == pre.windows@[k2].handle by {}
            System::lemma_menus_after_menu_remove(pre, post, i as int);
            assert forall|k2: int|
                0 <= k2 < post.windows@.len() implies ((#[trigger] post.windows@[k2]).menubar matches Some(
                mb,
            ) ==> post.has_menu(mb)) by {
                if post.windows@[k2].menubar is Some {
                    let mb = post.windows@[k2].menubar->Some_0;
                    assert(pre.windows@[k2].menubar != Some(h));
                    assert(post.windows@[k2] == pre.windows@[k2]);
                    assert(pre.has_menu(mb));
                    assert(mb != h);
                }
            }
            assert(post.wf_menubars());
        }
    }

    /// Destroy the window with handle `h`. A handle that names no live window
    /// is left alone.
    pub(crate) fn destroy_window(&mut self, h: u64)
        requires
            old(self).wf(),
        ensures
            final(self).wf(),
            !final(self).has_window(h),
            (old(self).has_window(h) ==> final(self).windows@ == old(self).windows@.remove(
                old(self).win_index(h),
            )),
            (!old(self).has_window(h) ==> final(self).windows@ == old(self).windows@
                && *final(self) == *old(self)),
            final(self).menus@ == old(self).menus@,
            final(self).next_handle == old(self).next_handle,
            final(self).next_menu_item_id == old(self).next_menu_item_id,
            final(self).focus == old(self).focus,
            final(self).popup == old(self).popup,
            (forall|h2: u64| h2 != h ==> final(self).has_window(h2) == old(self).has_window(h2)),
            (forall|h2: u64|
                h2 != h && old(self).has_window(h2) ==> final(self).window(h2) == old(self).window(
                    h2,
                )),
    {
        match self.find_window(h) {
            Some(i) => {
                self.windows.remove(i);
                proof {
                    let pre = *old(self);
                    let post = *self;
                    pre.lemma_win_index(i as int, h);
                    assert forall|k: int|
                        0 <= k < post.windows@.len() implies (#[trigger] post.windows@[k])
                        == pre.windows@[(if k < i as int { k } else { k + 1 })] by {}
                    assert(post.wf_windows());
                    assert(post.wf_menus());
                    assert forall|k: int|
                        0 <= k < post.windows@.len() implies ((
                    #[trigger] post.windows@[k]).menubar matches Some(mb) ==> post.has_menu(
                        mb,
                    )) by {
                        let k0 = if k < i as int {
                            k
                        } else {
                            k + 1
                        };
                        assert(post.windows@[k] == pre.windows@[k0]);
                        if post.windows@[k].menubar is Some {
                            let mb = post.windows@[k].menubar->Some_0;
                            assert(pre.has_menu(mb));
                            let q = pre.menu_index(mb);
                            pre.lemma_menu_index(q, mb);
                            post.lemma_menu_index(q, mb);
                        }
                    }
                    assert(post.wf_menu_ids());
                    assert(post.wf_menu_ids_unique());
                    assert forall|k: int|
                        0 <= k < post.windows@.len() implies (#[trigger] post.windows@[k]).handle
                        != h by {}
                    assert(!post.has_window(h));
                    assert forall|h2: u64| h2 != h implies final(self).has_window(h2) == old(
                        self,
                    ).has_window(h2) by {
                        if pre.has_window(h2) {
                            let k = pre.win_index(h2);
                            pre.lemma_win_index(k, h2);
                            let k2 = if k < i as int {
                                k
                            } else {
                                k - 1
                            };
                            assert(post.windows@[k2] == pre.windows@[k]);
                            post.lemma_win_index(k2, h2);
                        }
                        if post.has_window(h2) {
                            let k = post.win_index(h2);
                            let k0 = if k < i as int {
                                k
                            } else {
                                k + 1
                            };
                            pre.lemma_win_index(k0, h2);
                        }
                    }
                    assert forall|h2: u64| h2 != h && pre.has_window(h2) implies post.window(h2)
                        == pre.window(h2) by {
                        let k = pre.win_index(h2);
                        pre.lemma_win_index(k, h2);
                        let k2 = if k < i as int {
                            k
                        } else {
                            k - 1
                        };
                        assert(post.windows@[k2] == pre.windows@[k]);
                        post.lemma_win_index(k2, h2);
                    }
                }
            },
            None => {},
        }
    }

    /// Find the index of the menu with handle `h`.
    pub fn find_menu(&self, h: u64) -> (r: Option<usize>)
        ensures
            (r matches Some(i) ==> i < self.menus@.len() && self.menus@[i as int].handle == h
                && self.has_menu(h)),
            (r is None ==> !self.has_menu(h)),
    {
        let mut i: usize = 0;
        while i < self.menus.len()
            invariant
                i <= self.menus@.len(),
                forall|k: int| 0 <= k < i ==> (#[trigger] self.menus@[k]).handle != h,
            decreases self.menus@.len() - i,
        {
            if self.menus[i].handle == h {
                return Some(i);
            }
            i = i + 1;
        }
        None
    }
}

} // verus!
