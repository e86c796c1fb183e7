use vstd::prelude::*;

verus! {

/// Whether a live window is on screen.
#[derive(Clone, Copy, Debug, PartialEq, Eq, Structural)]
pub enum Visibility {
    Hidden,
    Visible,
}

/// One managed window: its unique label and its visibility.
#[derive(Debug)]
pub struct WindowHandle {
    pub label: String,
    pub visibility: Visibility,
}

/// At most one handle per label; the single source of truth for which
/// windows exist and whether they are shown.
pub struct WindowRegistry {
    entries: Vec<WindowHandle>,
    model: Ghost<Map<Seq<char>, Visibility>>,
}

impl WindowRegistry {
    /// The registry as a map from label to visibility.
    pub closed spec fn view(&self) -> Map<Seq<char>, Visibility> {
        self.model@
    }

    /// The positions at which a handle for `label` is stored.
    pub closed spec fn slots_for(&self, label: Seq<char>) -> Set<int> {
        Set::new(|i: int| 0 <= i < self.entries@.len() && self.entries@[i].label@ == label)
    }

    pub closed spec fn wf(&self) -> bool {
        &&& forall|i: int, j: int|
            0 <= i < j < self.entries@.len() ==> (#[trigger] self.entries@[i]).label@
                != (#[trigger] self.entries@[j]).label@
        &&& forall|i: int|
            0 <= i < self.entries@.len() ==> self.model@.contains_key(
                (#[trigger] self.entries@[i]).label@,
            ) && self.model@[self.entries@[i].label@] == self.entries@[i].visibility
        &&& forall|l: Seq<char>|
            #[trigger] self.model@.contains_key(l) ==> exists|i: int|
                0 <= i < self.entries@.len() && (#[trigger] self.entries@[i]).label@ == l
    }

    /// A well-formed registry holds exactly one handle for each label it
    /// knows and none for any other label.
    pub proof fn lemma_one_handle_per_label(&self, label: Seq<char>)
        requires
            self.wf(),
        ensures
            self@.contains_key(label) ==> self.slots_for(label).len() == 1,
            !self@.contains_key(label) ==> self.slots_for(label).len() == 0,
    {
        if self@.contains_key(label) {
            let k = choose|k: int| 0 <= k < self.entries@.len() && (#[trigger] self.entries@[k]).label@ == label;
            assert(self.slots_for(label) =~= set![k]);
        } else {
            assert(self.slots_for(label) =~= Set::<int>::empty());
        }
    }

    /// An empty registry.
    pub fn new() -> (r: Self)
        ensures
            r.wf(),
            r@ == Map::<Seq<char>, Visibility>::empty(),
    {
        WindowRegistry { entries: Vec::new(), model: Ghost(Map::empty()) }
    }

    fn position(&self, label: &String) -> (r: Option<usize>)
        requires
            self.wf(),
        ensures
            match r {
                Some(i) => i < self.entries@.len() && self.entries@[i as int].label@ == label@,
                None => !self@.contains_key(label@),
            },
    {
        let mut i: usize = 0;
        while i < self.entries.len()
            invariant
                self.wf(),
                i <= self.entries@.len(),
                forall|k: int| 0 <= k < i ==> self.entries@[k].label@ != label@,
            decreases self.entries@.len() - i,
        {
            if self.entries[i].label == *label {
                return Some(i);
            }
            i = i + 1;
        }
        None
    }

    /// The handle stored under `label`, if any.
    pub fn lookup(&self, label: &String) -> (r: Option<WindowHandle>)
        requires
            self.wf(),
        ensures
            match r {
                Some(h) => self@.contains_key(label@) && h.label@ == label@ && h.visibility
                    == self@[label@],
                None => !self@.contains_key(label@),
            },
    {
        match self.position(label) {
            Some(i) => {
                let e = &self.entries[i];
                Some(WindowHandle { label: e.label.clone(), visibility: e.visibility })
            },
            None => None,
        }
    }

    /// Stores `handle`, replacing any handle with the same label.
    pub fn insert(&mut self, handle: WindowHandle)
        requires
            old(self).wf(),
        ensures
            final(self).wf(),
            final(self)@ == old(self)@.insert(handle.label@, handle.visibility),
    {
        let ghost l = handle.label@;
        let ghost v = handle.visibility;
        let ghost before = self.entries@;
        match self.position(&handle.label) {
            Some(i) => {
                self.entries.set(i, handle);
                self.model = Ghost(self.model@.insert(l, v));
                assert(self.entries@[i as int].label@ == l);
                assert forall|m: Seq<char>| #[trigger] self.model@.contains_key(m) implies exists|
                    k: int,
                | 0 <= k < self.entries@.len() && (#[trigger] self.entries@[k]).label@ == m by {
                    if m != l {
                        let k = choose|k: int|
                            0 <= k < before.len() && (#[trigger] before[k]).label@ == m;
                        assert(self.entries@[k].label@ == m);
                    }
                }
            },
            None => {
                self.entries.push(handle);
                self.model = Ghost(self.model@.insert(l, v));
                let ghost n = before.len() as int;
                assert(self.entries@[n].label@ == l);
                assert forall|k: int| 0 <= k < n implies before[k].label@ != l by {
                    assert(old(self).model@.contains_key(before[k].label@));
                }
                assert forall|m: Seq<char>| #[trigger] self.model@.contains_key(m) implies exists|
                    k: int,
                | 0 <= k < self.entries@.len() && (#[trigger] self.entries@[k]).label@ == m by {
                    if m != l {
                        let k = choose|k: int|
                            0 <= k < before.len() && (#[trigger] before[k]).label@ == m;
                        assert(self.entries@[k].label@ == m);
                    }
                }
            },
        }
    }

    /// Removes the handle stored under `label`, if any.
    pub fn remove(&mut self, label: &String)
        requires
            old(self).wf(),
        ensures
            final(self).wf(),
            final(self)@ == old(self)@.remove(label@),
    {
        let ghost before = self.entries@;
        match self.position(label) {
            Some(i) => {
                let _ = self.entries.remove(i);
                self.model = Ghost(self.model@.remove(label@));
                assert forall|k: int| 0 <= k < self.entries@.len() implies #[trigger] self.entries@[k]
                    == before[if k < i { k } else { k + 1 }] by {}
                assert forall|m: Seq<char>| #[trigger] self.model@.contains_key(m) implies exists|
                    k: int,
                | 0 <= k < self.entries@.len() && (#[trigger] self.entries@[k]).label@ == m by {
                    let k = choose|k: int| 0 <= k < before.len() && (#[trigger] before[k]).label@ == m;
                    if k < i {
                        assert(self.entries@[k].label@ == m);
                    } else {
                        assert(k != i);
                        assert(self.entries@[k - 1].label@ == m);
                    }
                }
            },
            None => {
                self.model = Ghost(self.model@.remove(label@));
                assert(self.model@ == old(self).model@);
            },
        }
    }

    /// Sets the visibility of the window stored under `label`; returns
    /// whether there was one.
    pub fn set_visibility(&mut self, label: &String, visibility: Visibility) -> (found: bool)
        requires
            old(self).wf(),
        ensures
            final(self).wf(),
            found == old(self)@.contains_key(label@),
            found ==> final(self)@ == old(self)@.insert(label@, visibility),
            !found ==> final(self)@ == old(self)@,
    {
        match self.position(label) {
            Some(i) => {
                let ghost before = self.entries@;
                let h = WindowHandle { label: label.clone(), visibility };
                self.entries.set(i, h);
                self.model = Ghost(self.model@.insert(label@, visibility));
                assert forall|k: int| 0 <= k < self.entries@.len() implies (
                #[trigger] self.entries@[k]).label@ == before[k].label@ by {}
                assert forall|m: Seq<char>| #[trigger] self.model@.contains_key(m) implies exists|
                    k: int,
                | 0 <= k < self.entries@.len() && (#[trigger] self.entries@[k]).label@ == m by {
                    let k = choose|k: int| 0 <= k < before.len() && (#[trigger] before[k]).label@ == m;
                    assert(self.entries@[k].label@ == m);
                }
                true
            },
            None => false,
        }
    }
}

} // verus!
