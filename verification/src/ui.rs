//! The control registry: user-chosen ids mapped to native handles, together
//! with the modeled native state the controls live in.

use vstd::prelude::*;

use crate::controls::AnyHandle;
use crate::error::Error;
use crate::system::System;

verus! {

/// The registry and the message window are as they were: only the native
/// state moved.
pub open spec fn same_registry(pre: Ui, post: Ui) -> bool {
    post.registry@ == pre.registry@ && post.message_window == pre.message_window
}

/// The registry the templates resolve their `parent` and `font` ids through,
/// and the native state every built control lives in. Registered ids are
/// unique.
pub struct Ui {
    /// Registered controls and resources: id, handle. Ids are unique.
    pub registry: Vec<(u64, AnyHandle)>,
    /// The modeled native windowing state.
    pub system: System,
    /// The hidden message-only window that owns context menus.
    pub message_window: u64,
}

impl Ui {
    /// Whether `id` is registered.
    pub open spec fn registered(self, id: u64) -> bool {
        exists|i: int| 0 <= i < self.registry@.len() && (#[trigger] self.registry@[i]).0 == id
    }

    /// The registry index of `id` (well defined under `wf` when registered).
    pub open spec fn reg_index(self, id: u64) -> int {
        choose|i: int| 0 <= i < self.registry@.len() && (#[trigger] self.registry@[i]).0 == id
    }

    /// The handle registered under `id` (well defined under `wf` when
    /// registered).
    pub open spec fn lookup(self, id: u64) -> AnyHandle {
        self.registry@[self.reg_index(id)].1
    }

    /// The registry holds each id at most once, and the native state is well
    /// formed.
    pub open spec fn wf(self) -> bool {
        &&& self.system.wf()
        &&& forall|i: int, j: int|
            0 <= i < self.registry@.len() && 0 <= j < self.registry@.len() && i != j
                ==> (#[trigger] self.registry@[i]).0 != (#[trigger] self.registry@[j]).0
    }

    /// Under `wf`, a registry index holding `id` is the registry index of `id`.
    pub proof fn lemma_reg_index(self, i: int, id: u64)
        requires
            self.wf(),
            0 <= i < self.registry@.len(),
            self.registry@[i].0 == id,
        ensures
            self.registered(id),
            self.reg_index(id) == i,
            self.lookup(id) == self.registry@[i].1,
    {
        assert(self.registered(id));
        let j = self.reg_index(id);
        assert(0 <= j < self.registry@.len() && self.registry@[j].0 == id);
        if i != j {
            assert(self.registry@[i].0 != self.registry@[j].0);
        }
    }

    /// A fresh `Ui`: an empty registry over a native state holding only the
    /// hidden message window.
    pub fn new() -> (ui: Ui)
        ensures
            ui.wf(),
            ui.registry@ =~= Seq::<(u64, AnyHandle)>::empty(),
            ui.system.windows@.len() == 1,
            ui.system.menus@.len() == 0,
            ui.system.next_menu_item_id == 0,
            ui.system.has_window(ui.message_window),
            ui.system.next_handle == 2,
    {
        let mut system = System::new();
        let message_window = system.create_window_raw(
            "MessageWindow".to_string(),
            "".to_string(),
            (0, 0),
            (0, 0),
            0,
            0,
            0,
        );
        Ui { registry: Vec::new(), system, message_window }
    }

    /// The handle of the hidden message window.
    pub fn message_handle(&self) -> (h: u64)
        ensures
            h == self.message_window,
    {
        self.message_window
    }

    /// Look up the handle registered under `id`.
    pub fn handle_of(&self, id: u64) -> (r: Result<AnyHandle, Error>)
        requires
            self.wf(),
        ensures
            (self.registered(id) ==> r == Ok::<AnyHandle, Error>(self.lookup(id))),
            (!self.registered(id) ==> r == Err::<AnyHandle, Error>(Error::KeyNotFound)),
    {
        let mut i: usize = 0;
        while i < self.registry.len()
            invariant
                self.wf(),
                i <= self.registry@.len(),
                forall|k: int| 0 <= k < i ==> (#[trigger] self.registry@[k]).0 != id,
            decreases self.registry@.len() - i,
        {
            if self.registry[i].0 == id {
                proof {
                    self.lemma_reg_index(i as int, id);
                }
                return Ok(self.registry[i].1);
            }
            i = i + 1;
        }
        Err(Error::KeyNotFound)
    }

    /// Register `handle` under `id`. An id can be registered only once.
    pub fn register(&mut self, id: u64, handle: AnyHandle) -> (r: Result<(), Error>)
        requires
            old(self).wf(),
        ensures
            final(self).wf(),
            (old(self).registered(id) ==> r == Err::<(), Error>(Error::KeyExists) && *final(self)
                == *old(self)),
            (!old(self).registered(id) ==> r == Ok::<(), Error>(()) && final(self).registry@ == old(
                self,
            ).registry@.push((id, handle)) && final(self).registered(id) && final(self).lookup(id)
                == handle),
            final(self).system == old(self).system,
            final(self).message_window == old(self).message_window,
            (forall|id2: u64|
                id2 != id ==> final(self).registered(id2) == old(self).registered(id2)),
            (forall|id2: u64|
                id2 != id && old(self).registered(id2) ==> final(self).lookup(id2) == old(
                    self,
                ).lookup(id2)),
    {
        let mut i: usize = 0;
        while i < self.registry.len()
            invariant
                self.wf(),
                i <= self.registry@.len(),
                forall|k: int| 0 <= k < i ==> (#[trigger] self.registry@[k]).0 != id,
            decreases self.registry@.len() - i,
        {
            if self.registry[i].0 == id {
                proof {
                    self.lemma_reg_index(i as int, id);
                }
                return Err(Error::KeyExists);
            }
            i = i + 1;
        }
        let ghost pre = *old(self);
        self.registry.push((id, handle));
        proof {
            let post = *self;
            let n = pre.registry@.len() as int;
            assert(!pre.registered(id));
            assert forall|a: int, b: int|
                0 <= a < post.registry@.len() && 0 <= b < post.registry@.len() && a != b implies (
            #[trigger] post.registry@[a]).0 != (#[trigger] post.registry@[b]).0 by {
                if a < n && b < n {
                    assert(pre.registry@[a].0 != pre.registry@[b].0);
                }
            }
            post.lemma_reg_index(n, id);
            assert forall|id2: u64| id2 != id implies final(self).registered(id2) == old(
                self,
            ).registered(id2) by {
                if pre.registered(id2) {
                    let k = pre.reg_index(id2);
                    post.lemma_reg_index(k, id2);
                }
                if post.registered(id2) {
                    let k = post.reg_index(id2);
                    assert(k != n);
                    pre.lemma_reg_index(k, id2);
                }
            }
            assert forall|id2: u64| id2 != id && pre.registered(id2) implies post.lookup(id2)
                == pre.lookup(id2) by {
                let k = pre.reg_index(id2);
                pre.lemma_reg_index(k, id2);
                post.lemma_reg_index(k, id2);
            }
        }
        Ok(())
    }
}

} // verus!
