use vstd::prelude::*;

verus! {

/// A handle to an entity: a slot number and the generation of that slot
/// at the time the handle was issued.
#[derive(Clone, Copy, Debug, PartialEq, Eq, Structural)]
pub struct GenerationalIndex {
    pub index: usize,
    pub generation: u64,
}

impl GenerationalIndex {
    pub fn new(index: usize, generation: u64) -> (r: GenerationalIndex)
        ensures
            r.index == index,
            r.generation == generation,
    {
        GenerationalIndex { index, generation }
    }

    pub fn index(&self) -> (r: usize)
        ensures
            r == self.index,
    {
        self.index
    }

    pub fn generation(&self) -> (r: u64)
        ensures
            r == self.generation,
    {
        self.generation
    }
}

/// Every slot of `before` still exists in `after`, and no slot's generation went down.
pub open spec fn generations_advance(before: Seq<u64>, after: Seq<u64>) -> bool {
    &&& before.len() <= after.len()
    &&& forall|i: int| 0 <= i < before.len() ==> before[i] <= #[trigger] after[i]
}

/// A handle is live when its slot exists and still carries the handle's generation.
pub open spec fn live_in(generations: Seq<u64>, h: GenerationalIndex) -> bool {
    &&& h.index < generations.len()
    &&& generations[h.index as int] == h.generation
}

/// A handle is current when it is live and its slot is not waiting to be reused.
pub open spec fn current_in(generations: Seq<u64>, free: Seq<usize>, h: GenerationalIndex) -> bool {
    &&& live_in(generations, h)
    &&& !free.contains(h.index)
}

/// A handle is retired when its slot has moved past the handle's generation.
pub open spec fn retired_in(generations: Seq<u64>, h: GenerationalIndex) -> bool {
    &&& h.index < generations.len()
    &&& generations[h.index as int] > h.generation
}

/// Hands out and retires generational handles, recycling retired slots.
pub struct GenerationalIndexAllocator {
    generation: Vec<u64>,
    free: Vec<usize>,
    is_free: Vec<bool>,
}

impl GenerationalIndexAllocator {
    /// The current generation of each slot.
    pub closed spec fn generations(&self) -> Seq<u64> {
        self.generation@
    }

    /// The slots that are waiting to be reused; the last one is reused first.
    pub closed spec fn free_slots(&self) -> Seq<usize> {
        self.free@
    }

    /// One flag per slot, set exactly for the slots in the free list.
    pub closed spec fn free_flags_wf(&self) -> bool {
        &&& self.is_free@.len() == self.generation@.len()
        &&& forall|s: int|
            0 <= s < self.is_free@.len() ==> (#[trigger] self.is_free@[s] <==> self.free@.contains(
                s as usize,
            ))
    }

    /// Every free slot is a slot of the allocator and is listed once.
    pub open spec fn wf(&self) -> bool {
        &&& forall|i: int|
            0 <= i < self.free_slots().len() ==> #[trigger] self.free_slots()[i]
                < self.generations().len()
        &&& self.free_slots().no_duplicates()
        &&& self.free_flags_wf()
    }

    pub fn new() -> (r: GenerationalIndexAllocator)
        ensures
            r.wf(),
            r.generations() == Seq::<u64>::empty(),
            r.free_slots() == Seq::<usize>::empty(),
    {
        GenerationalIndexAllocator { generation: Vec::new(), free: Vec::new(), is_free: Vec::new() }
    }

    /// The number of slots ever created.
    pub fn len(&self) -> (r: usize)
        ensures
            r == self.generations().len(),
    {
        self.generation.len()
    }

    /// Reuses the most recently freed slot with its current generation, or
    /// appends a new slot of generation 0 when none is free.
    pub fn allocate(&mut self) -> (r: GenerationalIndex)
        requires
            old(self).wf(),
            old(self).free_slots().len() == 0 ==> old(self).generations().len() < usize::MAX,
        ensures
            final(self).wf(),
            current_in(final(self).generations(), final(self).free_slots(), r),
            generations_advance(old(self).generations(), final(self).generations()),
            old(self).free_slots().len() > 0 ==> {
                &&& r.index == old(self).free_slots().last()
                &&& final(self).free_slots() == old(self).free_slots().drop_last()
                &&& final(self).generations() == old(self).generations()
            },
            old(self).free_slots().len() == 0 ==> {
                &&& r.index == old(self).generations().len()
                &&& r.generation == 0
                &&& final(self).free_slots() == old(self).free_slots()
                &&& final(self).generations() == old(self).generations().push(0)
            },
    {
        match self.free.pop() {
            Some(slot) => {
                proof {
                    let f = old(self).free_slots();
                    assert(f[f.len() - 1] == slot);
                    assert(f == self.free@.push(slot));
                    assert(!self.free@.contains(slot)) by {
                        if self.free@.contains(slot) {
                            let j = choose|j: int| 0 <= j < self.free@.len() && self.free@[j] == slot;
                            assert(f[j] == f[f.len() - 1]);
                        }
                    }
                    assert forall|x: usize| self.free@.contains(x) implies f.contains(x) by {
                        let j = choose|j: int| 0 <= j < self.free@.len() && self.free@[j] == x;
                        assert(f[j] == x);
                    }
                    assert forall|x: usize| f.contains(x) && x != slot implies self.free@.contains(x) by {
                        let j = choose|j: int| 0 <= j < f.len() && f[j] == x;
                        assert(j != f.len() - 1);
                        assert(self.free@[j] == x);
                    }
                    assert(f.contains(slot)) by {
                        assert(f[f.len() - 1] == slot);
                    }
                }
                self.is_free.set(slot, false);
                let flag_count: usize = self.is_free.len();
                proof {
                    let f = old(self).free_slots();
                    assert forall|t: int| 0 <= t < self.is_free@.len() implies (#[trigger] self.is_free@[t]
                        <==> self.free@.contains(t as usize)) by {
                        let x = t as usize;
                        assert(old(self).free_flags_wf());
                        assert(old(self).is_free@.len() == old(self).generation@.len());
                        assert(self.is_free@.len() == old(self).is_free@.len());
                        assert(t < flag_count);
                        assert(x as int == t);
                        assert(f[f.len() - 1] == slot);
                        if t != slot as int {
                            assert(self.is_free@[t] == old(self).is_free@[t]);
                            assert(old(self).is_free@[t] <==> f.contains(x));
                            if f.contains(x) {
                                let j = choose|j: int| 0 <= j < f.len() && f[j] == x;
                                assert(j != f.len() - 1);
                                assert(self.free@[j] == x);
                            }
                            if self.free@.contains(x) {
                                let j = choose|j: int| 0 <= j < self.free@.len() && self.free@[j] == x;
                                assert(f[j] == x);
                            }
                        }
                    }
                    assert forall|i: int| 0 <= i < self.free_slots().len() implies #[trigger] self.free_slots()[i]
                        < self.generations().len() by {
                        assert(self.free_slots()[i] == old(self).free_slots()[i]);
                    }
                }
                GenerationalIndex { index: slot, generation: self.generation[slot] }
            },
            None => {
                let slot = self.generation.len();
                self.generation.push(0);
                self.is_free.push(false);
                proof {
                    assert(!self.free@.contains(slot)) by {
                        if self.free@.contains(slot) {
                            let j = choose|j: int| 0 <= j < self.free@.len() && self.free@[j] == slot;
                        }
                    }
                }
                GenerationalIndex { index: slot, generation: 0 }
            },
        }
    }

    /// Retires a live handle: bumps its slot's generation and frees the slot.
    /// A handle that is not live is refused and changes nothing.
    pub fn deallocate(&mut self, h: &GenerationalIndex) -> (r: bool)
        requires
            old(self).wf(),
            current_in(old(self).generations(), old(self).free_slots(), *h) ==> h.generation
                < u64::MAX,
        ensures
            final(self).wf(),
            r == current_in(old(self).generations(), old(self).free_slots(), *h),
            generations_advance(old(self).generations(), final(self).generations()),
            r ==> {
                &&& final(self).generations() == old(self).generations().update(
                    h.index as int,
                    (h.generation + 1) as u64,
                )
                &&& final(self).free_slots() == old(self).free_slots().push(h.index)
                &&& retired_in(final(self).generations(), *h)
            },
            !r ==> *final(self) == *old(self),
    {
        if h.index < self.generation.len() && self.generation[h.index] == h.generation
            && !self.is_free[h.index] {
            self.generation.set(h.index, h.generation + 1);
            self.free.push(h.index);
            self.is_free.set(h.index, true);
            proof {
                let f = old(self).free_slots();
                assert(self.free@ == f.push(h.index));
                assert forall|x: usize| #[trigger] self.free@.contains(x) <==> (f.contains(x) || x == h.index) by {
                    if self.free@.contains(x) {
                        let j = choose|j: int| 0 <= j < self.free@.len() && self.free@[j] == x;
                        if j < f.len() {
                            assert(f[j] == x);
                        }
                    }
                    if f.contains(x) {
                        let j = choose|j: int| 0 <= j < f.len() && f[j] == x;
                        assert(self.free@[j] == x);
                    }
                    if x == h.index {
                        assert(self.free@[f.len() as int] == x);
                    }
                }
                assert(self.free@.no_duplicates()) by {
                    assert forall|i: int, j: int| 0 <= i < self.free@.len() && 0 <= j < self.free@.len() && i != j implies self.free@[i] != self.free@[j] by {
                        if i < f.len() && j < f.len() {
                            assert(f[i] != f[j]);
                        } else if i < f.len() {
                            assert(f.contains(f[i]));
                        } else {
                            assert(f.contains(f[j]));
                        }
                    }
                }
                assert forall|i: int| 0 <= i < self.free_slots().len() implies #[trigger] self.free_slots()[i]
                    < self.generations().len() by {
                    if i < old(self).free_slots().len() {
                        assert(self.free_slots()[i] == old(self).free_slots()[i]);
                    }
                }
            }
            true
        } else {
            false
        }
    }

    /// Whether the handle's slot still carries the handle's generation and
    /// is not waiting to be reused.
    pub fn is_live(&self, h: &GenerationalIndex) -> (r: bool)
        requires
            self.wf(),
        ensures
            r == current_in(self.generations(), self.free_slots(), *h),
    {
        h.index < self.generation.len() && self.generation[h.index] == h.generation
            && !self.is_free[h.index]
    }
}

/// One slot of a component array: the generation it was last written with,
/// and the component, if any.
pub struct ArrayEntry<T> {
    pub value: Option<T>,
    pub generation: u64,
}

/// The sentinel that fills a slot that holds no component.
pub open spec fn empty_entry<T>() -> ArrayEntry<T> {
    ArrayEntry { value: None, generation: 0 }
}

/// `entries` grown with sentinels to at least `n` slots.
pub open spec fn padded<T>(entries: Seq<ArrayEntry<T>>, n: nat) -> Seq<ArrayEntry<T>> {
    if entries.len() >= n {
        entries
    } else {
        entries + Seq::new((n - entries.len()) as nat, |i: int| empty_entry::<T>())
    }
}

/// What a handle reads: the slot's component, provided the slot exists and
/// was last written with the handle's generation.
pub open spec fn lookup<T>(entries: Seq<ArrayEntry<T>>, h: GenerationalIndex) -> Option<T> {
    if h.index < entries.len() && entries[h.index as int].generation == h.generation {
        entries[h.index as int].value
    } else {
        None
    }
}

/// The entries after writing `v` at the handle's slot under the handle's generation.
pub open spec fn stored<T>(entries: Seq<ArrayEntry<T>>, h: GenerationalIndex, v: T) -> Seq<
    ArrayEntry<T>,
> {
    padded(entries, (h.index + 1) as nat).update(
        h.index as int,
        ArrayEntry { value: Some(v), generation: h.generation },
    )
}

/// The entries after clearing the handle's slot, which happens only when the
/// slot carries the handle's generation.
pub open spec fn cleared<T>(entries: Seq<ArrayEntry<T>>, h: GenerationalIndex) -> Seq<
    ArrayEntry<T>,
> {
    if h.index < entries.len() && entries[h.index as int].generation == h.generation {
        entries.update(h.index as int, ArrayEntry { value: None, generation: h.generation })
    } else {
        entries
    }
}

/// Components of one type, one slot per entity slot, each slot checked
/// against the generation of the handle that reads it.
pub struct GenerationalIndexArray<T> {
    pub unpacked_entries: Vec<ArrayEntry<T>>,
}

impl<T> View for GenerationalIndexArray<T> {
    type V = Seq<ArrayEntry<T>>;

    closed spec fn view(&self) -> Seq<ArrayEntry<T>> {
        self.unpacked_entries@
    }
}

impl<T> GenerationalIndexArray<T> {
    pub fn new() -> (r: GenerationalIndexArray<T>)
        ensures
            r@ == Seq::<ArrayEntry<T>>::empty(),
    {
        GenerationalIndexArray { unpacked_entries: Vec::new() }
    }

    /// The number of slots.
    pub fn len(&self) -> (r: usize)
        ensures
            r == self@.len(),
    {
        self.unpacked_entries.len()
    }

    /// Appends one sentinel slot.
    pub fn set_empty(&mut self)
        requires
            old(self)@.len() < usize::MAX,
        ensures
            final(self)@ == old(self)@.push(empty_entry::<T>()),
    {
        self.unpacked_entries.push(ArrayEntry { value: None, generation: 0 });
    }

    /// Appends sentinels until there are at least `n` slots.
    pub fn pad_to(&mut self, n: usize)
        ensures
            final(self)@ == padded(old(self)@, n as nat),
    {
        while self.unpacked_entries.len() < n
            invariant
                old(self)@.len() <= self@.len(),
                self@.len() <= n || self@.len() == old(self)@.len(),
                self@ == padded(old(self)@, self@.len()),
            decreases n - self@.len(),
        {
            proof {
                let k = self@.len();
                assert(padded(old(self)@, (k + 1) as nat) =~= padded(old(self)@, k).push(
                    empty_entry::<T>(),
                ));
            }
            self.set_empty();
        }
        proof {
            if old(self)@.len() < n {
                assert(self@.len() == n);
            } else {
                assert(padded(old(self)@, self@.len()) == old(self)@);
            }
        }
    }

    /// Writes `value` at the handle's slot under the handle's generation,
    /// growing the array with sentinels as needed and overwriting whatever
    /// the slot held.
    pub fn set(&mut self, h: &GenerationalIndex, value: T)
        requires
            h.index < usize::MAX,
        ensures
            final(self)@ == stored(old(self)@, *h, value),
    {
        self.pad_to(h.index + 1);
        self.unpacked_entries.set(h.index, ArrayEntry { value: Some(value), generation: h.generation });
    }

    /// The component at the handle's slot, if the slot was last written
    /// under the handle's generation.
    pub fn get(&self, h: &GenerationalIndex) -> (r: Option<&T>)
        ensures
            r.is_some() == lookup(self@, *h).is_some(),
            r.is_some() ==> *r.unwrap() == lookup(self@, *h).unwrap(),
    {
        if h.index < self.unpacked_entries.len() {
            let e = &self.unpacked_entries[h.index];
            if e.generation == h.generation {
                match &e.value {
                    Some(v) => Some(v),
                    None => None,
                }
            } else {
                None
            }
        } else {
            None
        }
    }

    /// Mutable access to the component at the handle's slot, under the same
    /// generation check as `get`.
    pub fn get_mut(&mut self, h: &GenerationalIndex) -> (r: Option<&mut T>)
        ensures
            r.is_some() == lookup(old(self)@, *h).is_some(),
            r.is_none() ==> final(self)@ == old(self)@,
            r.is_some() ==> {
                &&& *r.unwrap() == lookup(old(self)@, *h).unwrap()
                &&& final(self)@ == old(self)@.update(
                    h.index as int,
                    ArrayEntry { value: Some(*final(r.unwrap())), generation: h.generation },
                )
            },
    {
        if h.index < self.unpacked_entries.len() && self.unpacked_entries[h.index].generation
            == h.generation {
            let e = &mut self.unpacked_entries[h.index];
            match &mut e.value {
                Some(v) => Some(v),
                None => None,
            }
        } else {
            None
        }
    }

    /// Clears the handle's slot if it was last written under the handle's generation.
    pub fn remove(&mut self, h: &GenerationalIndex)
        ensures
            final(self)@ == cleared(old(self)@, *h),
    {
        if h.index < self.unpacked_entries.len() && self.unpacked_entries[h.index].generation
            == h.generation {
            self.unpacked_entries.set(h.index, ArrayEntry { value: None, generation: h.generation });
        }
    }
}

/// Advancing generations twice is advancing them once.
pub proof fn lemma_advance_transitive(a: Seq<u64>, b: Seq<u64>, c: Seq<u64>)
    requires
        generations_advance(a, b),
        generations_advance(b, c),
    ensures
        generations_advance(a, c),
{
    assert forall|i: int| 0 <= i < a.len() implies a[i] <= #[trigger] c[i] by {
        assert(a[i] <= b[i]);
    }
}

/// A retired handle stays retired, and so is never reported live again,
/// whatever allocations and retirements advance the generations afterwards.
pub proof fn lemma_retired_never_live(before: Seq<u64>, after: Seq<u64>, h: GenerationalIndex)
    requires
        retired_in(before, h),
        generations_advance(before, after),
    ensures
        retired_in(after, h),
        !live_in(after, h),
{
    assert(before[h.index as int] <= after[h.index as int]);
}

/// When a slot is reused after a handle to it was retired, the new handle
/// carries a strictly larger generation than the retired one.
pub proof fn lemma_reuse_has_larger_generation(
    before: Seq<u64>,
    after: Seq<u64>,
    h: GenerationalIndex,
    h2: GenerationalIndex,
)
    requires
        retired_in(before, h),
        generations_advance(before, after),
        live_in(after, h2),
        h2.index == h.index,
    ensures
        h2.generation > h.generation,
{
    lemma_retired_never_live(before, after, h);
}

/// A handle whose generation differs from the one its slot was last written
/// with reads nothing, whatever the slot holds; so does a handle past the end.
pub proof fn lemma_stale_handle_reads_nothing<T>(entries: Seq<ArrayEntry<T>>, h: GenerationalIndex)
    requires
        h.index >= entries.len() || entries[h.index as int].generation != h.generation,
    ensures
        lookup(entries, h).is_none(),
{
}

/// Writing a component and reading it back with the same handle gives that component.
pub proof fn lemma_set_then_get<T>(entries: Seq<ArrayEntry<T>>, h: GenerationalIndex, v: T)
    ensures
        lookup(stored(entries, h, v), h) == Some(v),
{
}

/// Writing a component at one slot leaves what every other slot reads unchanged.
pub proof fn lemma_set_keeps_other_slots<T>(
    entries: Seq<ArrayEntry<T>>,
    h: GenerationalIndex,
    v: T,
    other: GenerationalIndex,
)
    requires
        other.index != h.index,
    ensures
        lookup(stored(entries, h, v), other) == lookup(entries, other),
{
    let p = padded(entries, (h.index + 1) as nat);
    if other.index < p.len() && other.index >= entries.len() {
        assert(p[other.index as int] == empty_entry::<T>());
    }
}

} // verus!
