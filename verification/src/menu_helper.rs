//! Menu-side helpers: finding a menu entry by the submenu it opens, by its
//! command id or by its position, enabling and disabling entries, listing a
//! menu's children, and detaching menus and items from their parents.

use vstd::prelude::*;

use crate::controls::AnyHandle;
use crate::system::{MenuEntry, MenuEntryKind, System};

verus! {

/// Whether the entry opens the menu with handle `h`.
pub open spec fn entry_opens(e: MenuEntry, h: u64) -> bool {
    e.kind == MenuEntryKind::Submenu(h)
}

/// Whether the entry carries the command id `id`.
pub open spec fn entry_has_id(e: MenuEntry, id: u32) -> bool {
    e.is_cmd() && e.id == id
}

/// The first position whose entry opens the menu with handle `h`; `-1` when
/// none does.
pub open spec fn first_open_idx(entries: Seq<MenuEntry>, h: u64) -> int
    decreases entries.len(),
{
    if entries.len() == 0 {
        -1
    } else if entry_opens(entries[0], h) {
        0
    } else {
        let r = first_open_idx(entries.drop_first(), h);
        if r < 0 {
            -1
        } else {
            r + 1
        }
    }
}

/// What `first_open_idx` returns: `-1` when no entry opens `h`, else the
/// position of the first entry that does.
pub proof fn lemma_first_open_idx(entries: Seq<MenuEntry>, h: u64)
    ensures
        (first_open_idx(entries, h) == -1 ==> (forall|k: int|
            0 <= k < entries.len() ==> !entry_opens(#[trigger] entries[k], h))),
        (first_open_idx(entries, h) != -1 ==> 0 <= first_open_idx(entries, h) < entries.len()
            && entry_opens(entries[first_open_idx(entries, h)], h) && (forall|k: int|
            0 <= k < first_open_idx(entries, h) ==> !entry_opens(#[trigger] entries[k], h))),
    decreases entries.len(),
{
    if entries.len() == 0 {
    } else if entry_opens(entries[0], h) {
    } else {
        let rest = entries.drop_first();
        lemma_first_open_idx(rest, h);
        let r = first_open_idx(rest, h);
        assert forall|k: int| 0 <= k < rest.len() implies #[trigger] rest[k] == entries[k + 1] by {}
        if r == -1 {
            assert forall|k: int| 0 <= k < entries.len() implies !entry_opens(
                #[trigger] entries[k],
                h,
            ) by {
                if k > 0 {
                    assert(rest[k - 1] == entries[k]);
                    assert(!entry_opens(rest[k - 1], h));
                }
            }
        } else {
            assert(entries[r + 1] == rest[r]);
            assert forall|k: int| 0 <= k < r + 1 implies !entry_opens(#[trigger] entries[k], h) by {
                if k > 0 {
                    assert(rest[k - 1] == entries[k]);
                    assert(!entry_opens(rest[k - 1], h));
                }
            }
        }
    }
}

/// The first position whose entry carries the command id `id`; `-1` when
/// none does.
pub open spec fn first_id_idx(entries: Seq<MenuEntry>, id: u32) -> int
    decreases entries.len(),
{
    if entries.len() == 0 {
        -1
    } else if entry_has_id(entries[0], id) {
        0
    } else {
        let r = first_id_idx(entries.drop_first(), id);
        if r < 0 {
            -1
        } else {
            r + 1
        }
    }
}

/// What `first_id_idx` returns: `-1` when no entry carries `id`, else the
/// position of the first entry that does.
pub proof fn lemma_first_id_idx(entries: Seq<MenuEntry>, id: u32)
    ensures
        (first_id_idx(entries, id) == -1 ==> (forall|k: int|
            0 <= k < entries.len() ==> !entry_has_id(#[trigger] entries[k], id))),
        (first_id_idx(entries, id) != -1 ==> 0 <= first_id_idx(entries, id) < entries.len()
            && entry_has_id(entries[first_id_idx(entries, id)], id) && (forall|k: int|
            0 <= k < first_id_idx(entries, id) ==> !entry_has_id(#[trigger] entries[k], id))),
    decreases entries.len(),
{
    if entries.len() == 0 {
    } else if entry_has_id(entries[0], id) {
    } else {
        let rest = entries.drop_first();
        lemma_first_id_idx(rest, id);
        let r = first_id_idx(rest, id);
        assert forall|k: int| 0 <= k < rest.len() implies #[trigger] rest[k] == entries[k + 1] by {}
        if r == -1 {
            assert forall|k: int| 0 <= k < entries.len() implies !entry_has_id(
                #[trigger] entries[k],
                id,
            ) by {
                if k > 0 {
                    assert(rest[k - 1] == entries[k]);
                    assert(!entry_has_id(rest[k - 1], id));
                }
            }
        } else {
            assert(entries[r + 1] == rest[r]);
            assert forall|k: int| 0 <= k < r + 1 implies !entry_has_id(#[trigger] entries[k], id) by {
                if k > 0 {
                    assert(rest[k - 1] == entries[k]);
                    assert(!entry_has_id(rest[k - 1], id));
                }
            }
        }
    }
}

/// Find the first entry that opens the menu with handle `h`.
fn find_open_entry(entries: &Vec<MenuEntry>, h: u64) -> (r: Option<usize>)
    ensures
        (r matches Some(j) ==> j as int == first_open_idx(entries@, h) && j < entries@.len()),
        (r is None ==> first_open_idx(entries@, h) == -1),
{
    let mut i: usize = 0;
    while i < entries.len()
        invariant
            i <= entries@.len(),
            forall|k: int| 0 <= k < i ==> !entry_opens(#[trigger] entries@[k], h),
        decreases entries@.len() - i,
    {
        if entries[i].kind == MenuEntryKind::Submenu(h) {
            proof {
                lemma_first_open_idx(entries@, h);
            }
            return Some(i);
        }
        i = i + 1;
    }
    proof {
        lemma_first_open_idx(entries@, h);
    }
    None
}

/// Find the first entry that carries the command id `id`.
fn find_id_entry(entries: &Vec<MenuEntry>, id: u32) -> (r: Option<usize>)
    ensures
        (r matches Some(j) ==> j as int == first_id_idx(entries@, id) && j < entries@.len()),
        (r is None ==> first_id_idx(entries@, id) == -1),
{
    let mut i: usize = 0;
    while i < entries.len()
        invariant
            i <= entries@.len(),
            forall|k: int| 0 <= k < i ==> !entry_has_id(#[trigger] entries@[k], id),
        decreases entries@.len() - i,
    {
        let hit = match entries[i].kind {
            MenuEntryKind::Submenu(_) => false,
            _ => entries[i].id == id,
        };
        if hit {
            proof {
                lemma_first_id_idx(entries@, id);
            }
            return Some(i);
        }
        i = i + 1;
    }
    proof {
        lemma_first_id_idx(entries@, id);
    }
    None
}

/// The menu a parent handle stands for: a menu handle stands for itself, a
/// window handle for the window's menu bar.
pub open spec fn spec_resolved_menu(sys: System, parent: AnyHandle) -> Option<u64> {
    match parent {
        AnyHandle::HWND(p) => if sys.has_window(p) {
            sys.window(p).menubar
        } else {
            None
        },
        AnyHandle::HMENU(m) => Some(m),
        _ => None,
    }
}

/// Resolve a parent handle to the menu it stands for.
fn resolve_parent_menu(sys: &System, parent: &AnyHandle) -> (r: Option<u64>)
    requires
        sys.wf(),
    ensures
        r == spec_resolved_menu(*sys, *parent),
{
    match parent {
        AnyHandle::HWND(p) => {
            match sys.find_window(*p) {
                Some(i) => {
                    proof {
                        sys.lemma_win_index(i as int, *p);
                    }
                    sys.windows[i].menubar
                },
                None => None,
            }
        },
        AnyHandle::HMENU(m) => Some(*m),
        _ => None,
    }
}

/// Ask the menu to report picks by position (`MNS_NOTIFYBYPOS`). A dead
/// handle is left alone.
pub fn use_menu_command(sys: &mut System, h: u64)
    requires
        old(sys).wf(),
    ensures
        final(sys).wf(),
        (!old(sys).has_menu(h) ==> *final(sys) == *old(sys)),
        (old(sys).has_menu(h) ==> final(sys).has_menu(h) && final(sys).menu(h).handle == h
            && final(sys).menu(h).notify_by_pos == true && final(sys).menu(h).popup == old(
            sys,
        ).menu(h).popup && final(sys).menu(h).entries@ == old(sys).menu(h).entries@
            && final(sys).menus@.len() == old(sys).menus@.len() && (forall|h2: u64|
            final(sys).has_menu(h2) == old(sys).has_menu(h2)) && (forall|h2: u64|
            h2 != h && old(sys).has_menu(h2) ==> final(sys).menu(h2) == old(sys).menu(h2))
            && final(sys).windows@ == old(sys).windows@ && final(sys).next_handle == old(
            sys,
        ).next_handle && final(sys).next_menu_item_id == old(sys).next_menu_item_id
            && final(sys).focus == old(sys).focus && final(sys).popup == old(sys).popup),
{
    let mi = match sys.find_menu(h) {
        Some(mi) => mi,
        None => {
            return ;
        },
    };
    proof {
        sys.lemma_menu_index(mi as int, h);
    }
    let mut md = sys.menus.remove(mi);
    md.notify_by_pos = true;
    sys.menus.insert(mi, md);
    proof {
        let pre = *old(sys);
        let post = *sys;
        assert(post.menus@ =~= pre.menus@.update(mi as int, post.menus@[mi as int]));
        System::lemma_wf_after_menu_same_ids(pre, post, mi as int);
    }
}

/// Whether the entry opening menu `h` inside menu `m` is enabled.
pub open spec fn spec_menu_open_enabled(sys: System, m: u64, h: u64) -> bool {
    sys.has_menu(m) && {
        let es = sys.menu(m).entries@;
        let j = first_open_idx(es, h);
        j >= 0 && es[j].enabled
    }
}

/// Whether the menu with handle `h` is enabled under its parent: the first
/// entry of the parent's menu (or of the parent window's menu bar) that opens
/// `h` is enabled. Anything missing along the way reads as disabled.
pub open spec fn spec_menu_enabled(sys: System, h: u64, parent: AnyHandle) -> bool {
    match spec_resolved_menu(sys, parent) {
        Some(m) => spec_menu_open_enabled(sys, m, h),
        None => false,
    }
}

/// Whether the menu with handle `h` is enabled under its parent.
pub fn is_menu_enabled(sys: &System, h: u64, parent: &AnyHandle) -> (r: bool)
    requires
        sys.wf(),
    ensures
        r == spec_menu_enabled(*sys, h, *parent),
{
    let m = match resolve_parent_menu(sys, parent) {
        Some(m) => m,
        None => {
            return false;
        },
    };
    let mi = match sys.find_menu(m) {
        Some(mi) => mi,
        None => {
            return false;
        },
    };
    proof {
        sys.lemma_menu_index(mi as int, m);
    }
    match find_open_entry(&sys.menus[mi].entries, h) {
        Some(j) => sys.menus[mi].entries[j].enabled,
        None => false,
    }
}

/// One entry of one menu changed its enabled flag, everything else as it was.
pub open spec fn spec_entry_enabled_set(
    pre: System,
    post: System,
    m: u64,
    j: int,
    enabled: bool,
) -> bool {
    &&& post.wf()
    &&& post.has_menu(m)
    &&& post.menu(m).handle == pre.menu(m).handle
    &&& post.menu(m).popup == pre.menu(m).popup
    &&& post.menu(m).notify_by_pos == pre.menu(m).notify_by_pos
    &&& post.menu(m).entries@ == pre.menu(m).entries@.update(
        j,
        (MenuEntry { enabled: enabled, ..pre.menu(m).entries@[j] }),
    )
    &&& post.menus@.len() == pre.menus@.len()
    &&& (forall|h2: u64| post.has_menu(h2) == pre.has_menu(h2))
    &&& (forall|h2: u64| h2 != m && pre.has_menu(h2) ==> post.menu(h2) == pre.menu(h2))
    &&& post.windows@ == pre.windows@
    &&& post.next_handle == pre.next_handle
    &&& post.next_menu_item_id == pre.next_menu_item_id
    &&& post.focus == pre.focus
    &&& post.popup == pre.popup
}

/// Enable or disable the menu with handle `h` under its parent: flip the
/// enabled flag of the first entry that opens it. Anything missing along the
/// way leaves the state alone.
pub fn enable_menu(sys: &mut System, h: u64, parent: &AnyHandle, enabled: bool)
    requires
        old(sys).wf(),
    ensures
        final(sys).wf(),
        ({
            let t = spec_resolved_menu(*old(sys), *parent);
            (t is None || !old(sys).has_menu(t->Some_0) || first_open_idx(
                old(sys).menu(t->Some_0).entries@,
                h,
            ) < 0) ==> *final(sys) == *old(sys)
        }),
        ({
            let t = spec_resolved_menu(*old(sys), *parent);
            (t matches Some(m) ==> ((old(sys).has_menu(m) && first_open_idx(
                old(sys).menu(m).entries@,
                h,
            ) >= 0) ==> spec_entry_enabled_set(
                *old(sys),
                *final(sys),
                m,
                first_open_idx(old(sys).menu(m).entries@, h),
                enabled,
            )))
        }),
{
    let m = match resolve_parent_menu(sys, parent) {
        Some(m) => m,
        None => {
            return ;
        },
    };
    let mi = match sys.find_menu(m) {
        Some(mi) => mi,
        None => {
            return ;
        },
    };
    proof {
        sys.lemma_menu_index(mi as int, m);
    }
    let j = match find_open_entry(&sys.menus[mi].entries, h) {
        Some(j) => j,
        None => {
            return ;
        },
    };
    let mut md = sys.menus.remove(mi);
    let mut e = md.entries.remove(j);
    e.enabled = enabled;
    let ghost e2 = e;
    md.entries.insert(j, e);
    sys.menus.insert(mi, md);
    proof {
        let pre = *old(sys);
        let post = *sys;
        assert(post.menus@[mi as int].entries@ =~= pre.menus@[mi as int].entries@.update(
            j as int,
            e2,
        ));
        assert(post.menus@ =~= pre.menus@.update(mi as int, post.menus@[mi as int]));
        System::lemma_wf_after_menu_same_ids(pre, post, mi as int);
    }
}

/// The position the targeting rule picks: an explicit position when
/// given, else the first entry with the given command id, else the last entry.
pub open spec fn spec_menuitem_idx(entries: Seq<MenuEntry>, pos: Option<u32>, id: Option<u32>) -> int {
    match pos {
        Some(p) => if p < entries.len() {
            p as int
        } else {
            -1
        },
        None => match id {
            Some(c) => first_id_idx(entries, c),
            None => entries.len() - 1,
        },
    }
}

/// Whether the targeted entry of the menu with handle `parent` is enabled.
/// Anything missing reads as disabled.
pub open spec fn spec_menuitem_enabled(
    sys: System,
    parent: u64,
    pos: Option<u32>,
    id: Option<u32>,
) -> bool {
    sys.has_menu(parent) && {
        let es = sys.menu(parent).entries@;
        let j = spec_menuitem_idx(es, pos, id);
        0 <= j < es.len() && es[j].enabled
    }
}

/// Whether a menu item is enabled, targeted by position, by command id, or —
/// with neither — as the last entry of the menu.
pub fn is_menuitem_enabled(sys: &System, parent: u64, pos: Option<u32>, id: Option<u32>) -> (r:
    bool)
    requires
        sys.wf(),
    ensures
        r == spec_menuitem_enabled(*sys, parent, pos, id),
{
    let mi = match sys.find_menu(parent) {
        Some(mi) => mi,
        None => {
            return false;
        },
    };
    proof {
        sys.lemma_menu_index(mi as int, parent);
    }
    match pos {
        Some(p) => {
            let len = sys.menus[mi].entries.len();
            if (p as usize) < len {
                sys.menus[mi].entries[p as usize].enabled
            } else {
                false
            }
        },
        None => match id {
            Some(c) => {
                match find_id_entry(&sys.menus[mi].entries, c) {
                    Some(j) => sys.menus[mi].entries[j].enabled,
                    None => false,
                }
            },
            None => {
                let len = sys.menus[mi].entries.len();
                if len > 0 {
                    sys.menus[mi].entries[len - 1].enabled
                } else {
                    false
                }
            },
        },
    }
}

/// Enable or disable a menu item, targeted by position, by command id, or —
/// with neither — as the last entry of the menu. Anything missing leaves the
/// state alone.
pub fn enable_menuitem(
    sys: &mut System,
    parent: u64,
    pos: Option<u32>,
    id: Option<u32>,
    enabled: bool,
)
    requires
        old(sys).wf(),
    ensures
        final(sys).wf(),
        ((!old(sys).has_menu(parent) || !(0 <= spec_menuitem_idx(
            old(sys).menu(parent).entries@,
            pos,
            id,
        ) < old(sys).menu(parent).entries@.len())) ==> *final(sys) == *old(sys)),
        ((old(sys).has_menu(parent) && 0 <= spec_menuitem_idx(
            old(sys).menu(parent).entries@,
            pos,
            id,
        ) < old(sys).menu(parent).entries@.len()) ==> spec_entry_enabled_set(
            *old(sys),
            *final(sys),
            parent,
            spec_menuitem_idx(old(sys).menu(parent).entries@, pos, id),
            enabled,
        )),
{
    let mi = match sys.find_menu(parent) {
        Some(mi) => mi,
        None => {
            return ;
        },
    };
    proof {
        sys.lemma_menu_index(mi as int, parent);
    }
    let len = sys.menus[mi].entries.len();
    let j: usize = match pos {
        Some(p) => {
            if (p as usize) < len {
                p as usize
            } else {
                return ;
            }
        },
        None => match id {
            Some(c) => {
                match find_id_entry(&sys.menus[mi].entries, c) {
                    Some(j) => j,
                    None => {
                        return ;
                    },
                }
            },
            None => {
                if len > 0 {
                    len - 1
                } else {
                    return ;
                }
            },
        },
    };
    let mut md = sys.menus.remove(mi);
    let mut e = md.entries.remove(j);
    e.enabled = enabled;
    let ghost e2 = e;
    md.entries.insert(j, e);
    sys.menus.insert(mi, md);
    proof {
        let pre = *old(sys);
        let post = *sys;
        assert(post.menus@[mi as int].entries@ =~= pre.menus@[mi as int].entries@.update(
            j as int,
            e2,
        ));
        assert(post.menus@ =~= pre.menus@.update(mi as int, post.menus@[mi as int]));
        System::lemma_wf_after_menu_same_ids(pre, post, mi as int);
    }
}

/// The handle a menu entry shows to the outside: a submenu is a menu handle,
/// an item or separator is named by its menu and command id.
pub open spec fn spec_child_handle(menu: u64, e: MenuEntry) -> AnyHandle {
    match e.kind {
        MenuEntryKind::Submenu(s) => AnyHandle::HMENU(s),
        _ => AnyHandle::HMENU_ITEM(menu, e.id),
    }
}

/// List the direct children of the menu with handle `h`, in entry order. A
/// dead handle lists as empty.
pub fn list_menu_children(sys: &System, h: u64) -> (r: Vec<AnyHandle>)
    requires
        sys.wf(),
    ensures
        (!sys.has_menu(h) ==> r@.len() == 0),
        (sys.has_menu(h) ==> r@.len() == sys.menu(h).entries@.len() && (forall|k: int|
            0 <= k < r@.len() ==> r@[k] == spec_child_handle(h, sys.menu(h).entries@[k]))),
{
    let mi = match sys.find_menu(h) {
        Some(mi) => mi,
        None => {
            return Vec::new();
        },
    };
    proof {
        sys.lemma_menu_index(mi as int, h);
    }
    let mut r: Vec<AnyHandle> = Vec::new();
    let mut i: usize = 0;
    let len = sys.menus[mi].entries.len();
    while i < len
        invariant
            sys.wf(),
            mi < sys.menus@.len(),
            sys.menus@[mi as int].handle == h,
            sys.has_menu(h),
            sys.menu(h) == sys.menus@[mi as int],
            len == sys.menus@[mi as int].entries@.len(),
            i <= len,
            r@.len() == i,
            forall|k: int|
                0 <= k < i ==> r@[k] == spec_child_handle(h, sys.menus@[mi as int].entries@[k]),
        decreases len - i,
    {
        let child = match sys.menus[mi].entries[i].kind {
            MenuEntryKind::Submenu(s) => AnyHandle::HMENU(s),
            _ => AnyHandle::HMENU_ITEM(h, sys.menus[mi].entries[i].id),
        };
        r.push(child);
        i = i + 1;
    }
    r
}

/// One entry of one menu removed, everything else as it was.
pub open spec fn spec_entry_removed(pre: System, post: System, m: u64, j: int) -> bool {
    &&& post.wf()
    &&& post.has_menu(m)
    &&& post.menu(m).handle == pre.menu(m).handle
    &&& post.menu(m).popup == pre.menu(m).popup
    &&& post.menu(m).notify_by_pos == pre.menu(m).notify_by_pos
    &&& post.menu(m).entries@ == pre.menu(m).entries@.remove(j)
    &&& post.menus@.len() == pre.menus@.len()
    &&& (forall|h2: u64| post.has_menu(h2) == pre.has_menu(h2))
    &&& (forall|h2: u64| h2 != m && pre.has_menu(h2) ==> post.menu(h2) == pre.menu(h2))
    &&& post.windows@ == pre.windows@
    &&& post.next_handle == pre.next_handle
    &&& post.next_menu_item_id == pre.next_menu_item_id
    &&& post.focus == pre.focus
    &&& post.popup == pre.popup
}

/// Detach the menu with handle `h` from its parent: drop the first entry of
/// the parent's menu (or of the parent window's menu bar) that opens it.
/// Anything missing leaves the state alone. The menu itself stays live.
pub fn remove_menu_from_parent(sys: &mut System, h: u64, parent: &AnyHandle)
    requires
        old(sys).wf(),
    ensures
        final(sys).wf(),
        ({
            let t = spec_resolved_menu(*old(sys), *parent);
            (t is None || !old(sys).has_menu(t->Some_0) || first_open_idx(
                old(sys).menu(t->Some_0).entries@,
                h,
            ) < 0) ==> *final(sys) == *old(sys)
        }),
        ({
            let t = spec_resolved_menu(*old(sys), *parent);
            (t matches Some(m) ==> ((old(sys).has_menu(m) && first_open_idx(
                old(sys).menu(m).entries@,
                h,
            ) >= 0) ==> spec_entry_removed(
                *old(sys),
                *final(sys),
                m,
                first_open_idx(old(sys).menu(m).entries@, h),
            )))
        }),
{
    let m = match resolve_parent_menu(sys, parent) {
        Some(m) => m,
        None => {
            return ;
        },
    };
    let mi = match sys.find_menu(m) {
        Some(mi) => mi,
        None => {
            return ;
        },
    };
    proof {
        sys.lemma_menu_index(mi as int, m);
    }
    let j = match find_open_entry(&sys.menus[mi].entries, h) {
        Some(j) => j,
        None => {
            return ;
        },
    };
    let mut md = sys.menus.remove(mi);
    md.entries.remove(j);
    sys.menus.insert(mi, md);
    proof {
        let pre = *old(sys);
        let post = *sys;
        assert(post.menus@ =~= pre.menus@.update(mi as int, post.menus@[mi as int]));
        System::lemma_wf_after_menu_entry_remove(pre, post, mi as int, j as int);
    }
}

/// Detach the item or separator with command id `uid` from the menu with
/// handle `parent`: drop the first entry carrying that id. Anything missing
/// leaves the state alone.
pub fn remove_menu_item_from_parent(sys: &mut System, parent: u64, uid: u32)
    requires
        old(sys).wf(),
    ensures
        final(sys).wf(),
        ((!old(sys).has_menu(parent) || first_id_idx(old(sys).menu(parent).entries@, uid) < 0)
            ==> *final(sys) == *old(sys)),
        ((old(sys).has_menu(parent) && first_id_idx(old(sys).menu(parent).entries@, uid) >= 0)
            ==> spec_entry_removed(
            *old(sys),
            *final(sys),
            parent,
            first_id_idx(old(sys).menu(parent).entries@, uid),
        )),
{
    let mi = match sys.find_menu(parent) {
        Some(mi) => mi,
        None => {
            return ;
        },
    };
    proof {
        sys.lemma_menu_index(mi as int, parent);
    }
    let j = match find_id_entry(&sys.menus[mi].entries, uid) {
        Some(j) => j,
        None => {
            return ;
        },
    };
    let mut md = sys.menus.remove(mi);
    md.entries.remove(j);
    sys.menus.insert(mi, md);
    proof {
        let pre = *old(sys);
        let post = *sys;
        assert(post.menus@ =~= pre.menus@.update(mi as int, post.menus@[mi as int]));
        System::lemma_wf_after_menu_entry_remove(pre, post, mi as int, j as int);
    }
}

/// Track a popup menu at an absolute screen position on behalf of an owner
/// window. A dead menu handle is left alone.
pub fn track_popup_menu_ex(sys: &mut System, h: u64, flags: u32, x: i32, y: i32, owner: u64)
    requires
        old(sys).wf(),
    ensures
        final(sys).wf(),
        (!old(sys).has_menu(h) ==> *final(sys) == *old(sys)),
        (old(sys).has_menu(h) ==> final(sys).popup == Some(
            (crate::system::TrackedPopup { menu: h, x: x, y: y, owner: owner, flags: flags }),
        ) && final(sys).windows@ == old(sys).windows@ && final(sys).menus@ == old(sys).menus@
            && final(sys).next_handle == old(sys).next_handle && final(sys).next_menu_item_id
            == old(sys).next_menu_item_id && final(sys).focus == old(sys).focus),
{
    if sys.find_menu(h).is_some() {
        sys.popup = Some(crate::system::TrackedPopup { menu: h, x, y, owner, flags });
        proof {
            assert(sys.windows@ == old(sys).windows@);
            assert(sys.menus@ == old(sys).menus@);
            assert(sys.wf_windows());
            assert(sys.wf_menus());
            assert(sys.wf_menubars());
            assert(sys.wf_menu_ids());
            assert(sys.wf_menu_ids_unique());
        }
    }
}

} // verus!
