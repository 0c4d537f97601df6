//! Bookkeeping for scene overlays: custom-painted content that the renderer draws into the
//! main scene after the DOM, optionally positioned relative to a rectangle of the window.
//!
//! The registry hands out a fresh id for every overlay it registers, keeps overlays in
//! registration order, and lets a component move or remove its overlay by id.
use vstd::prelude::*;

verus! {

/// A registered overlay: its id, the overlay itself, and the rectangle it is confined to
/// (`None` means the whole window).
pub struct OverlayEntry<T, R> {
    pub id: u64,
    pub overlay: T,
    pub rect: Option<R>,
}

/// The observable contents of an [`OverlayRegistry`].
pub struct OverlayRegistryView<T, R> {
    /// Registered overlays, in registration order.
    pub entries: Seq<OverlayEntry<T, R>>,
    /// The id the next registration receives.
    pub next_id: u64,
}

impl<T, R> OverlayRegistryView<T, R> {
    /// Some registered overlay has id `id`.
    pub open spec fn contains_id(self, id: u64) -> bool {
        exists|k: int| 0 <= k < self.entries.len() && #[trigger] self.entries[k].id == id
    }

    /// The position of the overlay with id `id` (meaningful when `contains_id(id)`).
    pub open spec fn position_of(self, id: u64) -> int {
        choose|k: int| 0 <= k < self.entries.len() && #[trigger] self.entries[k].id == id
    }

    /// Ids increase strictly in registration order and all lie below `next_id`, which is positive.
    pub open spec fn well_formed(self) -> bool {
        &&& self.next_id >= 1
        &&& forall|i: int, j: int|
            0 <= i < j < self.entries.len() ==> #[trigger] self.entries[i].id
                < #[trigger] self.entries[j].id
        &&& forall|i: int| 0 <= i < self.entries.len() ==> #[trigger] self.entries[i].id < self.next_id
    }

    /// The registry after registering `overlay`.
    pub open spec fn registered(self, overlay: T) -> OverlayRegistryView<T, R> {
        OverlayRegistryView {
            entries: self.entries.push(OverlayEntry { id: self.next_id, overlay, rect: None }),
            next_id: (self.next_id + 1) as u64,
        }
    }

    /// The registry after unregistering id `id`.
    pub open spec fn unregistered(self, id: u64) -> OverlayRegistryView<T, R> {
        if self.contains_id(id) {
            OverlayRegistryView { entries: self.entries.remove(self.position_of(id)), ..self }
        } else {
            self
        }
    }

    /// The registry after confining overlay `id` to `rect`.
    pub open spec fn with_rect(self, id: u64, rect: R) -> OverlayRegistryView<T, R> {
        if self.contains_id(id) {
            let k = self.position_of(id);
            OverlayRegistryView {
                entries: self.entries.update(
                    k,
                    OverlayEntry { id, overlay: self.entries[k].overlay, rect: Some(rect) },
                ),
                ..self
            }
        } else {
            self
        }
    }

    /// In a well-formed registry, an id occurs at one position only.
    pub proof fn lemma_position_unique(self, id: u64, k: int)
        requires
            self.well_formed(),
            0 <= k < self.entries.len(),
            self.entries[k].id == id,
        ensures
            self.contains_id(id),
            self.position_of(id) == k,
    {
        let p = self.position_of(id);
        assert(self.entries[p].id == id);
        if p < k {
            assert(self.entries[p].id < self.entries[k].id);
        } else if k < p {
            assert(self.entries[k].id < self.entries[p].id);
        }
    }
}

/// Registry of scene overlays.
pub struct OverlayRegistry<T, R> {
    entries: Vec<OverlayEntry<T, R>>,
    next_id: u64,
}

impl<T, R> View for OverlayRegistry<T, R> {
    type V = OverlayRegistryView<T, R>;

    closed spec fn view(&self) -> OverlayRegistryView<T, R> {
        OverlayRegistryView { entries: self.entries@, next_id: self.next_id }
    }
}

impl<T, R> OverlayRegistry<T, R> {
    /// Every registry is well-formed: ids increase in registration order and lie below the
    /// next id.
    #[verifier::type_invariant]
    closed spec fn registry_well_formed(&self) -> bool {
        self@.well_formed()
    }

    /// Create an empty registry whose first overlay gets id 1.
    pub fn new() -> (r: Self)
        ensures
            r@.entries == Seq::<OverlayEntry<T, R>>::empty(),
            r@.next_id == 1,
            r@.well_formed(),
    {
        Self { entries: Vec::new(), next_id: 1 }
    }

    /// The number of registered overlays.
    pub fn len(&self) -> (r: usize)
        ensures
            r == self@.entries.len(),
    {
        self.entries.len()
    }

    /// The id the next registration receives.
    pub fn next_id(&self) -> (r: u64)
        ensures
            r == self@.next_id,
    {
        self.next_id
    }

    /// Register a scene overlay and return its unique ID.
    pub fn register(&mut self, overlay: T) -> (id: u64)
        requires
            old(self)@.next_id < u64::MAX,
        ensures
            id == old(self)@.next_id,
            !old(self)@.contains_id(id),
            final(self)@ == old(self)@.registered(overlay),
            final(self)@.well_formed(),
    {
        proof {
            use_type_invariant(&*self);
            lemma_register_keeps_form(self@, overlay);
        }
        let id = self.next_id;
        let mut entries = Vec::new();
        std::mem::swap(&mut entries, &mut self.entries);
        entries.push(OverlayEntry { id, overlay, rect: None });
        self.next_id = self.next_id + 1;
        self.entries = entries;
        id
    }

    /// The position of the overlay with id `id`, if one is registered.
    fn find(&self, id: u64) -> (r: Option<usize>)
        ensures
            r is Some <==> self@.contains_id(id),
            r matches Some(k) ==> k == self@.position_of(id) && k < self@.entries.len(),
    {
        proof {
            use_type_invariant(self);
        }
        let mut k: usize = 0;
        while k < self.entries.len()
            invariant
                k <= self.entries@.len(),
                self@.well_formed(),
                forall|i: int| 0 <= i < k ==> #[trigger] self.entries@[i].id != id,
            decreases self.entries@.len() - k,
        {
            if self.entries[k].id == id {
                proof {
                    self@.lemma_position_unique(id, k as int);
                }
                return Some(k);
            }
            k = k + 1;
        }
        None
    }

    /// Unregister a scene overlay by ID.
    pub fn unregister(&mut self, id: u64)
        ensures
            final(self)@ == old(self)@.unregistered(id),
            !final(self)@.contains_id(id),
            final(self)@.well_formed(),
    {
        proof {
            use_type_invariant(&*self);
            lemma_unregister_keeps_form(self@, id);
        }
        match self.find(id) {
            Some(k) => {
                let mut entries = Vec::new();
                std::mem::swap(&mut entries, &mut self.entries);
                let _removed = entries.remove(k);
                self.entries = entries;
            },
            None => {},
        }
    }

    /// Confine overlay `id` to `rect` (window-relative). Unknown ids are ignored.
    pub fn set_rect(&mut self, id: u64, rect: R)
        ensures
            final(self)@ == old(self)@.with_rect(id, rect),
            final(self)@.well_formed(),
    {
        proof {
            use_type_invariant(&*self);
            lemma_set_rect_keeps_form(self@, id, rect);
        }
        match self.find(id) {
            Some(k) => {
                let ghost before = self@;
                let mut entries = Vec::new();
                std::mem::swap(&mut entries, &mut self.entries);
                let overlay_entry = entries.remove(k);
                entries.insert(k, OverlayEntry { id: overlay_entry.id, overlay: overlay_entry.overlay, rect: Some(rect) });
                proof {
                    assert(entries@ =~= before.entries.update(
                        k as int,
                        OverlayEntry { id, overlay: before.entries[k as int].overlay, rect: Some(rect) },
                    ));
                }
                self.entries = entries;
            },
            None => {},
        }
    }

    /// The overlay registered at position `index`.
    pub fn entry(&self, index: usize) -> (r: &OverlayEntry<T, R>)
        requires
            index < self@.entries.len(),
        ensures
            *r == self@.entries[index as int],
    {
        &self.entries[index]
    }
}

/// Every registration gets an id that no registered overlay has, and the registry stays
/// well-formed across registrations, moves and removals.
pub proof fn lemma_registry_ids_fresh<T, R>(s: OverlayRegistryView<T, R>, overlay: T, id: u64, rect: R)
    requires
        s.well_formed(),
        s.next_id < u64::MAX,
    ensures
        !s.contains_id(s.next_id),
        s.registered(overlay).contains_id(s.next_id),
        s.registered(overlay).well_formed(),
        s.with_rect(id, rect).well_formed(),
        !s.unregistered(id).contains_id(id),
{
    lemma_register_keeps_form(s, overlay);
    lemma_unregister_keeps_form(s, id);
    lemma_set_rect_keeps_form(s, id, rect);
}

proof fn lemma_register_keeps_form<T, R>(s: OverlayRegistryView<T, R>, overlay: T)
    requires
        s.well_formed(),
        s.next_id < u64::MAX,
    ensures
        !s.contains_id(s.next_id),
        s.registered(overlay).contains_id(s.next_id),
        s.registered(overlay).well_formed(),
{
    let r = s.registered(overlay);
    assert(r.entries[r.entries.len() - 1].id == s.next_id);
}

proof fn lemma_unregister_keeps_form<T, R>(s: OverlayRegistryView<T, R>, id: u64)
    requires
        s.well_formed(),
    ensures
        s.unregistered(id).well_formed(),
        !s.unregistered(id).contains_id(id),
{
    if s.contains_id(id) {
        let k = s.position_of(id);
        let t = s.unregistered(id);
        assert forall|i: int, j: int| 0 <= i < j < t.entries.len() implies #[trigger] t.entries[i].id
            < #[trigger] t.entries[j].id by {
            let oi = if i < k { i } else { i + 1 };
            let oj = if j < k { j } else { j + 1 };
            assert(s.entries[oi].id < s.entries[oj].id);
        }
        assert forall|i: int| 0 <= i < t.entries.len() implies #[trigger] t.entries[i].id < t.next_id by {
            let oi = if i < k { i } else { i + 1 };
            assert(s.entries[oi].id < s.next_id);
        }
        if t.contains_id(id) {
            let p = t.position_of(id);
            let op = if p < k { p } else { p + 1 };
            assert(s.entries[op].id == id);
            s.lemma_position_unique(id, op);
        }
    }
}

proof fn lemma_set_rect_keeps_form<T, R>(s: OverlayRegistryView<T, R>, id: u64, rect: R)
    requires
        s.well_formed(),
    ensures
        s.with_rect(id, rect).well_formed(),
{
    if s.contains_id(id) {
        let w = s.with_rect(id, rect);
        assert forall|i: int, j: int| 0 <= i < j < w.entries.len() implies #[trigger] w.entries[i].id
            < #[trigger] w.entries[j].id by {
            assert(s.entries[i].id < s.entries[j].id);
        }
        assert forall|i: int| 0 <= i < w.entries.len() implies #[trigger] w.entries[i].id < w.next_id by {
            assert(s.entries[i].id < s.next_id);
        }
    }
}

/// Moving an overlay changes only its own rectangle; the overlay list keeps its order, ids and
/// length.
pub proof fn lemma_set_rect_targets_one<T, R>(s: OverlayRegistryView<T, R>, id: u64, rect: R, i: int)
    requires
        s.well_formed(),
        0 <= i < s.entries.len(),
    ensures
        s.with_rect(id, rect).entries.len() == s.entries.len(),
        s.with_rect(id, rect).entries[i].id == s.entries[i].id,
        s.entries[i].id == id ==> s.with_rect(id, rect).entries[i].rect == Some(rect),
        s.entries[i].id != id ==> s.with_rect(id, rect).entries[i] == s.entries[i],
{
    if s.entries[i].id == id {
        s.lemma_position_unique(id, i);
    } else if s.contains_id(id) {
        let k = s.position_of(id);
        assert(s.entries[k].id == id);
    }
}

/// One call on a registry, for stating what a sequence of calls does.
pub enum RegistryCall<T, R> {
    Register(T),
    Unregister(u64),
    SetRect(u64, R),
}

impl<T, R> OverlayRegistryView<T, R> {
    /// The registry after `call`.
    pub open spec fn after_call(self, call: RegistryCall<T, R>) -> OverlayRegistryView<T, R> {
        match call {
            RegistryCall::Register(overlay) => self.registered(overlay),
            RegistryCall::Unregister(id) => self.unregistered(id),
            RegistryCall::SetRect(id, rect) => self.with_rect(id, rect),
        }
    }

    /// The registry after `calls`, in order.
    pub open spec fn after_calls(self, calls: Seq<RegistryCall<T, R>>) -> OverlayRegistryView<T, R>
        decreases calls.len(),
    {
        if calls.len() == 0 {
            self
        } else {
            self.after_calls(calls.drop_last()).after_call(calls.last())
        }
    }
}

/// The number of registrations among `calls`.
pub open spec fn registration_count<T, R>(calls: Seq<RegistryCall<T, R>>) -> nat
    decreases calls.len(),
{
    if calls.len() == 0 {
        0
    } else {
        registration_count(calls.drop_last()) + if calls.last() is Register {
            1nat
        } else {
            0nat
        }
    }
}

/// The registry that `OverlayRegistry::new` creates.
pub open spec fn empty_registry<T, R>() -> OverlayRegistryView<T, R> {
    OverlayRegistryView { entries: Seq::empty(), next_id: 1 }
}

/// Starting from a new registry, with any removals and moves in between, the k-th
/// registration receives id k: before call `i`, the next id is one more than the number of
/// registrations so far, and the registry is well-formed.
pub proof fn lemma_kth_registration_gets_k<T, R>(calls: Seq<RegistryCall<T, R>>, i: int)
    requires
        0 <= i <= calls.len(),
        registration_count(calls.take(i)) < u64::MAX,
    ensures
        empty_registry::<T, R>().after_calls(calls.take(i)).next_id == registration_count(calls.take(i)) + 1,
        empty_registry::<T, R>().after_calls(calls.take(i)).well_formed(),
    decreases i,
{
    if i > 0 {
        assert(calls.take(i).drop_last() == calls.take(i - 1));
        assert(calls.take(i).last() == calls[i - 1]);
        lemma_kth_registration_gets_k(calls, i - 1);
        let prev = empty_registry::<T, R>().after_calls(calls.take(i - 1));
        match calls[i - 1] {
            RegistryCall::Register(overlay) => {
                lemma_register_keeps_form(prev, overlay);
            },
            RegistryCall::Unregister(id) => {
                lemma_unregister_keeps_form(prev, id);
            },
            RegistryCall::SetRect(id, rect) => {
                lemma_set_rect_keeps_form(prev, id, rect);
            },
        }
    } else {
        assert(calls.take(0).len() == 0);
    }
}

} // verus!
