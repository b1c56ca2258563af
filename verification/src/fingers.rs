//! Which bindings and keys are down: the finger table and the two key sets.

use vstd::prelude::*;
use std::collections::HashSet;

verus! {

/// How many bindings may be down at once. Wheels and the aim pointer come on top, and
/// the hard limit is [`DEVICE_MAX_POINTERS`].
pub const MAX_CONCURRENT_KEYS: usize = 8;

/// How many pointers the server on the device tracks; a further press is dropped there,
/// so it must never be sent.
pub const DEVICE_MAX_POINTERS: usize = 10;

/// The number of `true` entries.
pub open spec fn count_true(s: Seq<bool>) -> nat
    decreases s.len(),
{
    if s.len() == 0 {
        0
    } else {
        count_true(s.drop_last()) + if s.last() {
            1nat
        } else {
            0nat
        }
    }
}

/// Whether slot `idx` exists and is `true`.
pub open spec fn slot(s: Seq<bool>, idx: int) -> bool {
    0 <= idx < s.len() && s[idx]
}

/// `s` made at least `n` long with `false` entries.
pub open spec fn padded(s: Seq<bool>, n: nat) -> Seq<bool> {
    if s.len() < n {
        s + Seq::new((n - s.len()) as nat, |i: int| false)
    } else {
        s
    }
}

/// Whether binding `idx` may go down while `others` further pointers are down.
pub open spec fn can_press(s: Seq<bool>, idx: int, others: int) -> bool {
    &&& !slot(s, idx)
    &&& count_true(s) < MAX_CONCURRENT_KEYS
    &&& count_true(s) + others < DEVICE_MAX_POINTERS
}

/// The table after binding `idx` went down.
pub open spec fn press(s: Seq<bool>, idx: int) -> Seq<bool> {
    padded(s, (idx + 1) as nat).update(idx, true)
}

/// The table after binding `idx` went up.
pub open spec fn lift(s: Seq<bool>, idx: int) -> Seq<bool> {
    if slot(s, idx) {
        s.update(idx, false)
    } else {
        s
    }
}

pub proof fn count_update(s: Seq<bool>, i: int, v: bool)
    requires
        0 <= i < s.len(),
    ensures
        count_true(s.update(i, v)) == count_true(s) - (if s[i] {
            1int
        } else {
            0int
        }) + (if v {
            1int
        } else {
            0int
        }),
    decreases s.len(),
{
    if i == s.len() - 1 {
        assert(s.update(i, v).drop_last() =~= s.drop_last());
    } else {
        count_update(s.drop_last(), i, v);
        assert(s.update(i, v).drop_last() =~= s.drop_last().update(i, v));
    }
}

pub proof fn count_padding(s: Seq<bool>, n: nat)
    ensures
        count_true(s + Seq::new(n, |i: int| false)) == count_true(s),
    decreases n,
{
    let t = s + Seq::new(n, |i: int| false);
    if n == 0 {
        assert(t =~= s);
    } else {
        let m = (n - 1) as nat;
        count_padding(s, m);
        assert(t.drop_last() =~= s + Seq::new(m, |i: int| false));
    }
}

pub proof fn count_bounded(s: Seq<bool>)
    ensures
        count_true(s) <= s.len(),
    decreases s.len(),
{
    if s.len() > 0 {
        count_bounded(s.drop_last());
    }
}

pub proof fn count_none(s: Seq<bool>)
    requires
        forall|i: int| 0 <= i < s.len() ==> !s[i],
    ensures
        count_true(s) == 0,
    decreases s.len(),
{
    if s.len() > 0 {
        count_none(s.drop_last());
    }
}

pub proof fn count_positive(s: Seq<bool>, i: int)
    requires
        0 <= i < s.len(),
        s[i],
    ensures
        count_true(s) >= 1,
    decreases s.len(),
{
    if i < s.len() - 1 {
        count_positive(s.drop_last(), i);
    }
}

/// How pressing and lifting move the count of fingers.
pub proof fn press_lift_count(s: Seq<bool>, idx: int)
    requires
        0 <= idx,
    ensures
        !slot(s, idx) ==> count_true(press(s, idx)) == count_true(s) + 1,
        slot(s, idx) ==> count_true(lift(s, idx)) + 1 == count_true(s),
        !slot(s, idx) ==> lift(s, idx) == s,
        count_true(padded(s, (idx + 1) as nat)) == count_true(s),
{
    if s.len() < idx + 1 {
        count_padding(s, (idx + 1 - s.len()) as nat);
    }
    if !slot(s, idx) {
        count_update(padded(s, (idx + 1) as nat), idx, true);
    } else {
        count_update(s, idx, false);
    }
}

/// Tracks for each binding whether its finger is down, so that every press pairs with
/// exactly one release and the limits hold.
pub struct Fingers {
    /// Binding index to "is down".
    pub down: Vec<bool>,
    /// How many entries are down.
    pub count: usize,
}

impl View for Fingers {
    type V = Seq<bool>;

    open spec fn view(&self) -> Seq<bool> {
        self.down@
    }
}

impl Default for Fingers {
    fn default() -> (r: Self)
        ensures
            r.wf(),
            r@ == Seq::<bool>::empty(),
    {
        Fingers { down: Vec::new(), count: 0 }
    }
}

impl Fingers {
    /// The count says how many entries are down.
    pub open spec fn wf(self) -> bool {
        self.count == count_true(self.down@)
    }

    /// Makes room for `n` bindings; never shrinks.
    pub fn align(&mut self, n: usize)
        requires
            old(self).wf(),
        ensures
            final(self).wf(),
            final(self)@ == padded(old(self)@, n as nat),
    {
        let ghost before = self.down@;
        if self.down.len() < n {
            proof {
                count_padding(before, (n - before.len()) as nat);
            }
            self.down.resize(n, false);
            assert(self.down@ =~= padded(before, n as nat));
        }
    }

    pub fn is_down(&self, idx: usize) -> (r: bool)
        ensures
            r == slot(self@, idx as int),
    {
        idx < self.down.len() && self.down[idx]
    }

    /// Notes a press. Refused when the binding is already down, when
    /// [`MAX_CONCURRENT_KEYS`] are, or when with the `others` pointers held by wheels and
    /// aim the device would have more than [`DEVICE_MAX_POINTERS`].
    pub fn try_down(&mut self, idx: usize, others: usize) -> (ok: bool)
        requires
            old(self).wf(),
            idx < usize::MAX,
        ensures
            final(self).wf(),
            ok == can_press(old(self)@, idx as int, others as int),
            final(self)@ == if ok {
                press(old(self)@, idx as int)
            } else {
                old(self)@
            },
    {
        if self.is_down(idx) || self.count >= MAX_CONCURRENT_KEYS {
            return false;
        }
        if self.count.saturating_add(others) >= DEVICE_MAX_POINTERS {
            return false;
        }
        proof {
            press_lift_count(self.down@, idx as int);
        }
        self.align(idx + 1);
        self.down[idx] = true;
        self.count = self.count + 1;
        true
    }

    /// Notes a release; true only when the binding was down.
    pub fn release(&mut self, idx: usize) -> (was_down: bool)
        requires
            old(self).wf(),
        ensures
            final(self).wf(),
            was_down == slot(old(self)@, idx as int),
            final(self)@ == lift(old(self)@, idx as int),
    {
        if self.is_down(idx) {
            proof {
                press_lift_count(self.down@, idx as int);
            }
            self.down[idx] = false;
            self.count = self.count - 1;
            return true;
        }
        false
    }

    /// Forgets every press.
    pub fn free_all(&mut self)
        ensures
            final(self).wf(),
            final(self)@ == Seq::new(old(self)@.len(), |i: int| false),
    {
        let n: usize = self.down.len();
        for i in 0..n
            invariant
                n == self.down.len(),
                n == old(self).down.len(),
                forall|k: int| 0 <= k < i ==> !self.down[k],
        {
            self.down[i] = false;
        }
        self.count = 0;
        proof {
            count_none(self.down@);
        }
    }

    /// Forgets every press and every slot.
    pub fn clear(&mut self)
        ensures
            final(self).wf(),
            final(self)@ == Seq::<bool>::empty(),
    {
        self.down.clear();
        self.count = 0;
    }
}

/// The keys that are physically held right now. Only key events change it, so it stays
/// true across profile edits and wheel switches.
pub struct Held {
    pub codes: HashSet<u16>,
}

impl View for Held {
    type V = Set<u16>;

    open spec fn view(&self) -> Set<u16> {
        self.codes@
    }
}

impl Default for Held {
    fn default() -> (r: Self)
        ensures
            r@ == Set::<u16>::empty(),
    {
        Held { codes: HashSet::new() }
    }
}

/// The held keys after an event on `code`.
pub open spec fn held_after(s: Set<u16>, code: u16, pressed: bool) -> Set<u16> {
    if pressed {
        s.insert(code)
    } else {
        s.remove(code)
    }
}

impl Held {
    pub fn set(&mut self, code: u16, pressed: bool)
        ensures
            final(self)@ == held_after(old(self)@, code, pressed),
    {
        broadcast use vstd::std_specs::hash::group_hash_axioms;

        if pressed {
            self.codes.insert(code);
        } else {
            self.codes.remove(&code);
        }
    }

    pub fn has(&self, code: u16) -> (r: bool)
        ensures
            r == self@.contains(code),
    {
        broadcast use vstd::std_specs::hash::group_hash_axioms;

        self.codes.contains(&code)
    }
}

/// Android keys that are down on the device, in the order in which they went down.
pub struct KeySet {
    pub codes: Vec<u16>,
}

impl View for KeySet {
    type V = Seq<u16>;

    open spec fn view(&self) -> Seq<u16> {
        self.codes@
    }
}

/// `s` with `code` appended unless it is there already.
pub open spec fn key_added(s: Seq<u16>, code: u16) -> Seq<u16> {
    if s.contains(code) {
        s
    } else {
        s.push(code)
    }
}

/// `s` without `code`; the others keep their order.
pub open spec fn key_removed(s: Seq<u16>, code: u16) -> Seq<u16> {
    if s.contains(code) {
        s.remove(s.index_of(code))
    } else {
        s
    }
}

impl Default for KeySet {
    fn default() -> (r: Self)
        ensures
            r@ == Seq::<u16>::empty(),
            r.wf(),
    {
        KeySet { codes: Vec::new() }
    }
}

impl KeySet {
    /// No key is listed twice.
    pub open spec fn wf(self) -> bool {
        self.codes@.no_duplicates()
    }

    fn position(&self, code: u16) -> (r: Option<usize>)
        requires
            self.wf(),
        ensures
            r is Some <==> self@.contains(code),
            r is Some ==> r->0 < self@.len() && self@[r->0 as int] == code && r->0
                == self@.index_of(code),
    {
        let n: usize = self.codes.len();
        for i in 0..n
            invariant
                self.wf(),
                n == self.codes.len(),
                forall|k: int| 0 <= k < i ==> self.codes[k] != code,
        {
            if self.codes[i] == code {
                proof {
                    assert(self@.contains(code));
                    let j = self@.index_of(code);
                    assert(self@[j] == self@[i as int]);
                }
                return Some(i);
            }
        }
        None
    }

    /// Adds a key; true when it was not there.
    pub fn insert(&mut self, code: u16) -> (added: bool)
        requires
            old(self).wf(),
        ensures
            final(self).wf(),
            added == !old(self)@.contains(code),
            final(self)@ == key_added(old(self)@, code),
    {
        match self.position(code) {
            Some(_) => false,
            None => {
                self.codes.push(code);
                true
            },
        }
    }

    /// Removes a key; true when it was there.
    pub fn remove(&mut self, code: u16) -> (removed: bool)
        requires
            old(self).wf(),
        ensures
            final(self).wf(),
            removed == old(self)@.contains(code),
            final(self)@ == key_removed(old(self)@, code),
    {
        match self.position(code) {
            Some(i) => {
                self.codes.remove(i);
                true
            },
            None => false,
        }
    }

    pub fn clear(&mut self)
        ensures
            final(self).wf(),
            final(self)@ == Seq::<u16>::empty(),
    {
        self.codes.clear();
    }
}

} // verus!
