//! Input state: which keys and mouse buttons are currently held down.
//!
//! The host translates its key and button identifiers into plain codes
//! before handing them to the library.

use vstd::prelude::*;

verus! {

/// A small set of key codes with no duplicates.
pub struct KeySet {
    pub items: Vec<u32>,
}

impl KeySet {
    /// Whether the set holds the given code.
    pub open spec fn has(self, code: u32) -> bool {
        exists|i: int| 0 <= i < self.items@.len() && self.items@[i] == code
    }

    /// No code occurs twice.
    pub open spec fn wf(self) -> bool {
        forall|i: int, j: int|
            0 <= i < j < self.items@.len() ==> self.items@[i] != self.items@[j]
    }

    /// The empty set.
    pub fn new() -> (r: Self)
        ensures
            r.wf(),
            forall|c: u32| !r.has(c),
    {
        KeySet { items: Vec::new() }
    }

    /// Whether the set holds the given code.
    pub fn contains(&self, code: u32) -> (r: bool)
        ensures
            r == self.has(code),
    {
        let mut i: usize = 0;
        while i < self.items.len()
            invariant
                i <= self.items@.len(),
                forall|j: int| 0 <= j < i ==> self.items@[j] != code,
            decreases self.items@.len() - i,
        {
            if self.items[i] == code {
                return true;
            }
            i = i + 1;
        }
        false
    }

    /// Add a code; adding one already present changes nothing.
    pub fn insert(&mut self, code: u32)
        requires
            old(self).wf(),
        ensures
            final(self).wf(),
            forall|c: u32| final(self).has(c) == (old(self).has(c) || c == code),
    {
        if !self.contains(code) {
            self.items.push(code);
            proof {
                assert forall|c: u32| self.has(c) == (old(self).has(c) || c == code) by {
                    if c == code {
                        assert(self.items@[old(self).items@.len() as int] == code);
                    }
                    if old(self).has(c) {
                        let i = choose|i: int|
                            0 <= i < old(self).items@.len() && old(self).items@[i] == c;
                        assert(self.items@[i] == c);
                    }
                    if self.has(c) {
                        let i = choose|i: int|
                            0 <= i < self.items@.len() && self.items@[i] == c;
                        if i < old(self).items@.len() {
                            assert(old(self).items@[i] == c);
                        }
                    }
                }
            }
        }
    }

    /// Remove a code; removing one not present changes nothing.
    pub fn remove(&mut self, code: u32)
        requires
            old(self).wf(),
        ensures
            final(self).wf(),
            forall|c: u32| final(self).has(c) == (old(self).has(c) && c != code),
    {
        let mut out: Vec<u32> = Vec::new();
        let mut i: usize = 0;
        while i < self.items.len()
            invariant
                old(self).wf(),
                self == old(self),
                i <= self.items@.len(),
                forall|j: int, k: int| 0 <= j < k < out@.len() ==> out@[j] != out@[k],
                forall|j: int| #![trigger out@[j]]
                    0 <= j < out@.len() ==> (exists|k: int|
                        #![trigger self.items@[k]]
                        0 <= k < i && self.items@[k] == out@[j] && out@[j] != code),
                forall|k: int| #![trigger self.items@[k]]
                    0 <= k < i && self.items@[k] != code ==> (exists|j: int|
                        #![trigger out@[j]]
                        0 <= j < out@.len() && out@[j] == self.items@[k]),
            decreases self.items@.len() - i,
        {
            let ghost out0 = out@;
            let v = self.items[i];
            if v != code {
                out.push(v);
            }
            proof {
                assert forall|k: int| #![trigger self.items@[k]]
                    0 <= k <= i && self.items@[k] != code implies (exists|j: int|
                        #![trigger out@[j]]
                        0 <= j < out@.len() && out@[j] == self.items@[k]) by {
                    if k < i {
                        let j = choose|j: int| 0 <= j < out0.len() && out0[j] == self.items@[k];
                        assert(out@[j] == self.items@[k]);
                    } else {
                        assert(out@[out@.len() - 1] == self.items@[k]);
                    }
                }
            }
            i = i + 1;
        }
        self.items = out;
        proof {
            assert forall|c: u32| self.has(c) == (old(self).has(c) && c != code) by {
                if self.has(c) {
                    let j = choose|j: int|
                        0 <= j < self.items@.len() && self.items@[j] == c;
                    assert(exists|k: int|
                        0 <= k < old(self).items@.len() && old(self).items@[k] == c && c != code);
                }
                if old(self).has(c) && c != code {
                    let k = choose|k: int|
                        0 <= k < old(self).items@.len() && old(self).items@[k] == c;
                }
            }
        }
    }
}

/// Which keys and mouse buttons are currently held down.
pub struct Input {
    pub keys_down: KeySet,
    pub mouse_buttons_down: KeySet,
}

impl Input {
    /// Whether this key is recorded as held down.
    pub open spec fn key_down(self, key: u32) -> bool {
        self.keys_down.has(key)
    }

    /// Whether this mouse button is recorded as held down.
    pub open spec fn mouse_down(self, button: u32) -> bool {
        self.mouse_buttons_down.has(button)
    }

    /// Both sets are well formed.
    pub open spec fn wf(self) -> bool {
        self.keys_down.wf() && self.mouse_buttons_down.wf()
    }

    /// Fresh input state: nothing held down.
    pub fn new() -> (r: Self)
        ensures
            r.wf(),
            forall|k: u32| !r.key_down(k),
            forall|b: u32| !r.mouse_down(b),
    {
        Self { keys_down: KeySet::new(), mouse_buttons_down: KeySet::new() }
    }

    /// Record that a key went down.
    pub fn set_key_down(&mut self, key: u32)
        requires
            old(self).wf(),
        ensures
            final(self).wf(),
            forall|k: u32| final(self).key_down(k) == (old(self).key_down(k) || k == key),
            forall|b: u32| final(self).mouse_down(b) == old(self).mouse_down(b),
    {
        self.keys_down.insert(key);
    }

    /// Record that a key went up.
    pub fn set_key_up(&mut self, key: u32)
        requires
            old(self).wf(),
        ensures
            final(self).wf(),
            forall|k: u32| final(self).key_down(k) == (old(self).key_down(k) && k != key),
            forall|b: u32| final(self).mouse_down(b) == old(self).mouse_down(b),
    {
        self.keys_down.remove(key);
    }

    /// Record that a mouse button went down.
    pub fn set_mb_down(&mut self, button: u32)
        requires
            old(self).wf(),
        ensures
            final(self).wf(),
            forall|b: u32| final(self).mouse_down(b) == (old(self).mouse_down(b) || b == button),
            forall|k: u32| final(self).key_down(k) == old(self).key_down(k),
    {
        self.mouse_buttons_down.insert(button);
    }

    /// Record that a mouse button went up.
    pub fn set_mb_up(&mut self, button: u32)
        requires
            old(self).wf(),
        ensures
            final(self).wf(),
            forall|b: u32| final(self).mouse_down(b) == (old(self).mouse_down(b) && b != button),
            forall|k: u32| final(self).key_down(k) == old(self).key_down(k),
    {
        self.mouse_buttons_down.remove(button);
    }

    /// Whether this key is held down.
    pub fn is_key_down(&self, key: u32) -> (r: bool)
        ensures
            r == self.key_down(key),
    {
        self.keys_down.contains(key)
    }

    /// Whether this mouse button is held down.
    pub fn is_mouse_down(&self, button: u32) -> (r: bool)
        ensures
            r == self.mouse_down(button),
    {
        self.mouse_buttons_down.contains(button)
    }
}

} // verus!
