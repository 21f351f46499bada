//! The bodies of the simulation together with what is kept for each of them:
//! its colour and the trail of its recent positions.

use vstd::prelude::*;
use crate::body::{Advance, Object, Point};
use crate::color::ObjectColor;
use crate::trail::{latest, CapVecDeque};

verus! {

/// How many positions the trail of a body keeps.
pub const MAX_POSITIONS_STORED: usize = 100000;

/// A position is recorded on every advance whose number is a multiple of
/// this.
pub const ADD_POSITION_MULTIPLE: usize = 2;

/// The indices that a report of removed bodies names.
pub open spec fn reported(removed: Seq<usize>) -> Set<int> {
    Set::new(|i: int| exists|k: int| 0 <= k < removed.len() && #[trigger] removed[k] == i)
}

/// The entries of `s` at the indices from `lo` up to, not including, `hi`
/// that are not in `gone`, in their order.
pub open spec fn kept_between<T>(s: Seq<T>, gone: Set<int>, lo: int, hi: int) -> Seq<T>
    decreases hi - lo,
{
    if hi <= lo {
        Seq::empty()
    } else if gone.contains(hi - 1) {
        kept_between(s, gone, lo, hi - 1)
    } else {
        kept_between(s, gone, lo, hi - 1).push(s[hi - 1])
    }
}

/// The entries of `s` whose index is not in `gone`, in their order.
pub open spec fn survivors<T>(s: Seq<T>, gone: Set<int>) -> Seq<T> {
    kept_between(s, gone, 0, s.len() as int)
}

/// The trail of one body: how many positions it keeps, and those it holds,
/// oldest first.
pub struct Trail {
    pub capacity: nat,
    pub positions: Seq<Point>,
}

impl Trail {
    /// The trail after `point` has been recorded.
    pub open spec fn record(self, point: Point) -> Trail {
        Trail { capacity: self.capacity, positions: latest(self.positions.push(point), self.capacity) }
    }
}

/// The trail that a buffer stands for.
pub open spec fn trail_of(buffer: CapVecDeque) -> Trail {
    Trail { capacity: buffer.capacity() as nat, positions: buffer@ }
}

/// The trails after the position of each body has been recorded in its own.
pub open spec fn sampled(trails: Seq<Trail>, objects: Seq<Object>) -> Seq<Trail> {
    Seq::new(trails.len(), |i: int| trails[i].record(objects[i].position))
}

/// Everything a `ColorUniverse` holds, as plain mathematics.
pub struct UniverseState {
    /// The bodies, as the integrator last reported them.
    pub objects: Seq<Object>,
    /// The colour of each body, at the body's index.
    pub colors: Seq<ObjectColor>,
    /// The trail of each body, at the body's index.
    pub trails: Seq<Trail>,
    /// The number of advances so far, modulo `ADD_POSITION_MULTIPLE`.
    pub phase: nat,
}

impl UniverseState {
    /// The three lists have one entry per body, no trail is over its
    /// capacity, and the phase is in range.
    pub open spec fn aligned(self) -> bool {
        &&& self.colors.len() == self.objects.len()
        &&& self.trails.len() == self.objects.len()
        &&& forall|i: int|
            0 <= i < self.trails.len() ==> (#[trigger] self.trails[i]).positions.len()
                <= self.trails[i].capacity
        &&& self.phase < ADD_POSITION_MULTIPLE
    }

    /// No bodies at all, and no advance made.
    pub open spec fn empty() -> UniverseState {
        UniverseState {
            objects: Seq::empty(),
            colors: Seq::empty(),
            trails: Seq::empty(),
            phase: 0,
        }
    }

    /// The state with one more body at the end, its trail empty.
    pub open spec fn with_object(self, object: Object, color: ObjectColor) -> UniverseState {
        UniverseState {
            objects: self.objects.push(object),
            colors: self.colors.push(color),
            trails: self.trails.push(
                Trail { capacity: MAX_POSITIONS_STORED as nat, positions: Seq::empty() },
            ),
            phase: self.phase,
        }
    }

    /// Whether a report of the integrator can belong to this state: it
    /// names bodies that exist, and it lists as many bodies as are left
    /// when those are taken away.
    pub open spec fn fits(self, removed: Seq<usize>, objects: Seq<Object>) -> bool {
        &&& forall|k: int| 0 <= k < removed.len() ==> (#[trigger] removed[k]) < self.objects.len()
        &&& objects.len() == survivors(self.objects, reported(removed)).len()
    }

    /// The state after an advance that removed the bodies at the indices
    /// `removed` and left `objects`.  Colours and trails of the removed
    /// bodies are dropped, the others keep their order; on every
    /// `ADD_POSITION_MULTIPLE`th advance each body's new position is
    /// recorded in its trail.
    pub open spec fn advanced(self, removed: Seq<usize>, objects: Seq<Object>) -> UniverseState {
        let gone = reported(removed);
        let trails = survivors(self.trails, gone);
        let phase = ((self.phase + 1) % (ADD_POSITION_MULTIPLE as nat)) as nat;
        UniverseState {
            objects,
            colors: survivors(self.colors, gone),
            trails: if phase == 0 {
                sampled(trails, objects)
            } else {
                trails
            },
            phase,
        }
    }
}

/// The entries kept from `lo` on are the entry at `lo`, if it is kept,
/// followed by those kept from `lo + 1` on.
pub proof fn kept_between_front<T>(s: Seq<T>, gone: Set<int>, lo: int, hi: int)
    requires
        lo < hi,
    ensures
        kept_between(s, gone, lo, hi) == if gone.contains(lo) {
            kept_between(s, gone, lo + 1, hi)
        } else {
            seq![s[lo]] + kept_between(s, gone, lo + 1, hi)
        },
    decreases hi - lo,
{
    if hi == lo + 1 {
        assert(kept_between(s, gone, lo, lo) =~= Seq::<T>::empty());
        assert(kept_between(s, gone, lo + 1, hi) =~= Seq::<T>::empty());
        assert(Seq::<T>::empty().push(s[lo]) =~= seq![s[lo]] + Seq::<T>::empty());
    } else {
        kept_between_front(s, gone, lo, hi - 1);
        if !gone.contains(hi - 1) && !gone.contains(lo) {
            assert((seq![s[lo]] + kept_between(s, gone, lo + 1, hi - 1)).push(s[hi - 1]) =~= seq![
                s[lo],
            ] + kept_between(s, gone, lo + 1, hi - 1).push(s[hi - 1]));
        }
    }
}

/// As many entries are kept of one list as of any other of the same
/// length, whatever the lists hold.
pub proof fn kept_between_len<T, U>(s: Seq<T>, t: Seq<U>, gone: Set<int>, lo: int, hi: int)
    ensures
        kept_between(s, gone, lo, hi).len() == kept_between(t, gone, lo, hi).len(),
        kept_between(s, gone, lo, hi).len() <= if hi <= lo { 0 } else { hi - lo },
    decreases hi - lo,
{
    if hi > lo {
        kept_between_len(s, t, gone, lo, hi - 1);
    }
}

/// Keeping entries and then changing each by `f` gives the same as
/// changing each by `f` and then keeping the entries at the same indices.
pub proof fn kept_between_mapped<T, U>(
    s: Seq<T>,
    t: Seq<U>,
    f: spec_fn(T) -> U,
    gone: Set<int>,
    lo: int,
    hi: int,
)
    requires
        0 <= lo,
        hi <= s.len(),
        s.len() == t.len(),
        forall|i: int| lo <= i < hi ==> #[trigger] t[i] == f(s[i]),
    ensures
        kept_between(t, gone, lo, hi).len() == kept_between(s, gone, lo, hi).len(),
        forall|k: int|
            0 <= k < kept_between(s, gone, lo, hi).len() ==> #[trigger] kept_between(
                t,
                gone,
                lo,
                hi,
            )[k] == f(kept_between(s, gone, lo, hi)[k]),
    decreases hi - lo,
{
    if hi > lo {
        kept_between_mapped(s, t, f, gone, lo, hi - 1);
    }
}

/// What holds of every entry in a range holds of every entry kept from it.
pub proof fn kept_between_all<T>(
    s: Seq<T>,
    gone: Set<int>,
    lo: int,
    hi: int,
    holds: spec_fn(T) -> bool,
)
    requires
        0 <= lo,
        hi <= s.len(),
        forall|i: int| lo <= i < hi ==> holds(#[trigger] s[i]),
    ensures
        forall|k: int|
            0 <= k < kept_between(s, gone, lo, hi).len() ==> holds(
                #[trigger] kept_between(s, gone, lo, hi)[k],
            ),
    decreases hi - lo,
{
    if hi > lo {
        kept_between_all(s, gone, lo, hi - 1, holds);
        let shorter = kept_between(s, gone, lo, hi - 1);
        assert forall|k: int| 0 <= k < kept_between(s, gone, lo, hi).len() implies holds(
            #[trigger] kept_between(s, gone, lo, hi)[k],
        ) by {
            if k < shorter.len() {
                assert(holds(shorter[k]));
            } else {
                assert(holds(s[hi - 1]));
            }
        }
    }
}

/// How many of the indices below `i` are not in `gone`: the index at which
/// the entry at `i`, if it is kept, stands among the survivors.
pub open spec fn kept_below(gone: Set<int>, i: int) -> int
    decreases i,
{
    if i <= 0 {
        0
    } else if gone.contains(i - 1) {
        kept_below(gone, i - 1)
    } else {
        kept_below(gone, i - 1) + 1
    }
}

/// The count of kept indices grows with the bound, and grows past every
/// kept index.
pub proof fn kept_below_grows(gone: Set<int>, i: int, j: int)
    requires
        0 <= i <= j,
    ensures
        0 <= kept_below(gone, i) <= kept_below(gone, j),
        kept_below(gone, j) <= j,
        i < j && !gone.contains(i) ==> kept_below(gone, i) < kept_below(gone, j),
    decreases j,
{
    if i < j {
        kept_below_grows(gone, i, j - 1);
    } else if 0 < j {
        kept_below_grows(gone, 0, j - 1);
    }
}

/// As many entries are kept below `hi` as there are kept indices below it.
pub proof fn kept_between_count<T>(s: Seq<T>, gone: Set<int>, hi: int)
    requires
        0 <= hi,
    ensures
        kept_between(s, gone, 0, hi).len() == kept_below(gone, hi),
    decreases hi,
{
    if hi > 0 {
        kept_between_count(s, gone, hi - 1);
    }
}

/// Among the entries kept below `hi`, the entry of a kept index `i` stands
/// at `kept_below(gone, i)`.
pub proof fn kept_between_position<T>(s: Seq<T>, gone: Set<int>, hi: int, i: int)
    requires
        0 <= i < hi,
        !gone.contains(i),
    ensures
        0 <= kept_below(gone, i) < kept_between(s, gone, 0, hi).len(),
        kept_between(s, gone, 0, hi)[kept_below(gone, i)] == s[i],
    decreases hi,
{
    kept_between_count(s, gone, hi);
    kept_between_count(s, gone, hi - 1);
    kept_below_grows(gone, i, hi);
    if i < hi - 1 {
        kept_between_position(s, gone, hi - 1, i);
    } else {
        kept_between_count(s, gone, i);
    }
}

/// Each of the entries kept below `hi` is the entry of a kept index.
pub proof fn kept_between_origin<T>(s: Seq<T>, gone: Set<int>, hi: int, k: int) -> (i: int)
    requires
        0 <= k < kept_between(s, gone, 0, hi).len(),
    ensures
        0 <= i < hi,
        !gone.contains(i),
        kept_below(gone, i) == k,
        kept_between(s, gone, 0, hi)[k] == s[i],
    decreases hi,
{
    if hi <= 0 {
        0
    } else {
        kept_between_count(s, gone, hi - 1);
        if k < kept_between(s, gone, 0, hi - 1).len() {
            kept_between_origin(s, gone, hi - 1, k)
        } else {
            hi - 1
        }
    }
}

/// Taking entries away keeps the others, in their order.
///
/// When the entries of `s` at the indices in `gone` are taken away, the
/// entry that stood at a kept index `i` is still there.  It stands at
/// `kept_below(gone, i)`, the number of kept indices below `i`, which is
/// larger for a larger kept index (`kept_below_grows`): the order of those
/// that are left is the order they had.
pub proof fn survivors_keep_order<T>(s: Seq<T>, gone: Set<int>, i: int)
    requires
        0 <= i < s.len(),
        !gone.contains(i),
    ensures
        0 <= kept_below(gone, i) < survivors(s, gone).len(),
        survivors(s, gone)[kept_below(gone, i)] == s[i],
        survivors(s, gone).len() == kept_below(gone, s.len() as int),
        survivors(s, gone).len() <= s.len(),
{
    kept_between_position(s, gone, s.len() as int, i);
    kept_between_count(s, gone, s.len() as int);
    kept_below_grows(gone, 0, s.len() as int);
}

/// Nothing that was taken away is left.
///
/// Every entry of what is left of `s` stood at an index outside `gone`:
/// the result names that index for the entry at `k`.
pub proof fn survivors_were_kept<T>(s: Seq<T>, gone: Set<int>, k: int) -> (i: int)
    requires
        0 <= k < survivors(s, gone).len(),
    ensures
        0 <= i < s.len(),
        !gone.contains(i),
        kept_below(gone, i) == k,
        survivors(s, gone)[k] == s[i],
{
    kept_between_origin(s, gone, s.len() as int, k)
}

/// An advance leaves the three lists aligned.
///
/// Whatever bodies a fitting report removes, afterwards there is again one
/// colour and one trail for each body that is left, and no trail is over
/// its capacity.
pub proof fn advance_keeps_alignment(state: UniverseState, removed: Seq<usize>, objects: Seq<Object>)
    requires
        state.aligned(),
        state.fits(removed, objects),
    ensures
        state.advanced(removed, objects).aligned(),
        state.advanced(removed, objects).objects.len() == kept_below(
            reported(removed),
            state.objects.len() as int,
        ),
{
    let gone = reported(removed);
    let len = state.objects.len() as int;
    kept_between_len(state.colors, state.objects, gone, 0, len);
    kept_between_len(state.trails, state.objects, gone, 0, len);
    kept_between_all(state.trails, gone, 0, len, |t: Trail| t.positions.len() <= t.capacity);
    kept_between_count(state.objects, gone, len);
}

/// The bodies of the simulation with the colour and the trail of each.
///
/// The three lists always have the same length, and what belongs to one body
/// stands at the same index in each of them.
#[derive(Debug)]
pub struct ColorUniverse {
    objects: Vec<Object>,
    colors: Vec<ObjectColor>,
    previous_positions: Vec<CapVecDeque>,
    update_counter: usize,
}

impl View for ColorUniverse {
    type V = UniverseState;

    closed spec fn view(&self) -> UniverseState {
        UniverseState {
            objects: self.objects@,
            colors: self.colors@,
            trails: Seq::new(
                self.previous_positions@.len(),
                |i: int| trail_of(self.previous_positions@[i]),
            ),
            phase: self.update_counter as nat,
        }
    }
}

/// Marks the indices below `len` that `removed` names.
fn removal_mask(removed: &Vec<usize>, len: usize) -> (mask: Vec<bool>)
    ensures
        mask@.len() == len,
        forall|i: int| 0 <= i < len ==> mask@[i] == reported(removed@).contains(i),
{
    let mut mask: Vec<bool> = Vec::new();
    let mut i: usize = 0;
    while i < len
        invariant
            i <= len,
            mask@.len() == i,
            forall|j: int| 0 <= j < i ==> !mask@[j],
        decreases len - i,
    {
        mask.push(false);
        i += 1;
    }
    let mut k: usize = 0;
    while k < removed.len()
        invariant
            k <= removed@.len(),
            mask@.len() == len,
            forall|i: int|
                0 <= i < len ==> mask@[i] == reported(removed@.take(k as int)).contains(i),
        decreases removed.len() - k,
    {
        let index = removed[k];
        proof {
            let before = removed@.take(k as int);
            let after = removed@.take(k + 1);
            assert forall|i: int| reported(after).contains(i) == (reported(before).contains(i) || i
                == index) by {
                if reported(before).contains(i) {
                    let w = choose|w: int| 0 <= w < before.len() && before[w] == i;
                    assert(after[w] == i);
                }
                if i == index {
                    assert(after[k as int] == i);
                }
                if reported(after).contains(i) {
                    let w = choose|w: int| 0 <= w < after.len() && after[w] == i;
                    if w < k {
                        assert(before[w] == i);
                    }
                }
            }
        }
        if index < len {
            mask.set(index, true);
        }
        k += 1;
    }
    proof {
        assert(removed@.take(removed@.len() as int) =~= removed@);
    }
    mask
}

impl ColorUniverse {
    #[verifier::type_invariant]
    spec fn lists_aligned(&self) -> bool {
        &&& self.colors@.len() == self.objects@.len()
        &&& self.previous_positions@.len() == self.objects@.len()
        &&& forall|i: int|
            0 <= i < self.previous_positions@.len() ==> (#[trigger] self.previous_positions@[i])@.len()
                <= self.previous_positions@[i].capacity()
        &&& self.update_counter < ADD_POSITION_MULTIPLE
    }

    /// The bodies, in the order in which colours and trails are kept.
    pub fn objects(&self) -> (objects: &[Object])
        ensures
            objects@ == self@.objects,
            self@.aligned(),
    {
        proof {
            use_type_invariant(self);
        }
        self.objects.as_slice()
    }

    /// Each body with its colour and its trail.
    pub fn object_mapped(&self) -> (mapped: Vec<(&Object, &ObjectColor, &CapVecDeque)>)
        ensures
            self@.aligned(),
            mapped@.len() == self@.objects.len(),
            forall|i: int|
                0 <= i < mapped@.len() ==> {
                    &&& *(#[trigger] mapped@[i]).0 == self@.objects[i]
                    &&& *mapped@[i].1 == self@.colors[i]
                    &&& trail_of(*mapped@[i].2) == self@.trails[i]
                },
    {
        proof {
            use_type_invariant(self);
        }
        let mut mapped: Vec<(&Object, &ObjectColor, &CapVecDeque)> = Vec::new();
        let mut i: usize = 0;
        while i < self.objects.len()
            invariant
                i <= self.objects@.len(),
                self.colors@.len() == self.objects@.len(),
                self.previous_positions@.len() == self.objects@.len(),
                mapped@.len() == i,
                forall|j: int|
                    0 <= j < i ==> {
                        &&& *(#[trigger] mapped@[j]).0 == self.objects@[j]
                        &&& *mapped@[j].1 == self.colors@[j]
                        &&& *mapped@[j].2 == self.previous_positions@[j]
                    },
            decreases self.objects@.len() - i,
        {
            mapped.push((&self.objects[i], &self.colors[i], &self.previous_positions[i]));
            i += 1;
        }
        mapped
    }

    /// Adds a body with its colour and an empty trail.
    pub fn add_object(&mut self, object: Object, color: ObjectColor)
        ensures
            final(self)@ == old(self)@.with_object(object, color),
            final(self)@.aligned(),
    {
        proof {
            use_type_invariant(&*self);
        }
        let mut taken = ColorUniverse::default();
        std::mem::swap(self, &mut taken);
        let ColorUniverse { mut objects, mut colors, mut previous_positions, update_counter } = taken;
        objects.push(object);
        colors.push(color);
        previous_positions.push(CapVecDeque::with_capacity(MAX_POSITIONS_STORED));
        *self = ColorUniverse { objects, colors, previous_positions, update_counter };
        assert(final(self)@.trails =~= old(self)@.with_object(object, color).trails);
    }

    /// Whether `advance` can be a report on the bodies held: whether
    /// `apply_advance` may be called with it.
    pub fn accepts(&self, advance: &Advance) -> (fitting: bool)
        ensures
            fitting == self@.fits(advance.removed@, advance.objects@),
    {
        proof {
            use_type_invariant(self);
        }
        let len = self.objects.len();
        let mut k: usize = 0;
        while k < advance.removed.len()
            invariant
                k <= advance.removed@.len(),
                len == self.objects@.len(),
                forall|j: int| 0 <= j < k ==> (#[trigger] advance.removed@[j]) < len,
            decreases advance.removed@.len() - k,
        {
            if advance.removed[k] >= len {
                assert(!(advance.removed@[k as int] < self@.objects.len()));
                return false;
            }
            k += 1;
        }
        let mask = removal_mask(&advance.removed, len);
        let ghost gone = reported(advance.removed@);
        let mut kept: usize = 0;
        let mut i: usize = 0;
        while i < len
            invariant
                i <= len,
                len == self.objects@.len(),
                mask@.len() == len,
                forall|j: int| 0 <= j < len ==> mask@[j] == gone.contains(j),
                kept == kept_between(self.objects@, gone, 0, i as int).len(),
                kept <= i,
            decreases len - i,
        {
            if !mask[i] {
                kept += 1;
            }
            i += 1;
        }
        advance.objects.len() == kept
    }

    /// Takes over the integrator's report of one advance.
    ///
    /// Colours and trails of the removed bodies are dropped, from the
    /// highest index down, so that what is left stays aligned with the
    /// bodies that are left.  Every `ADD_POSITION_MULTIPLE`th advance
    /// records the position of each body in its trail.
    pub fn apply_advance(&mut self, advance: Advance)
        requires
            old(self)@.fits(advance.removed@, advance.objects@),
        ensures
            final(self)@ == old(self)@.advanced(advance.removed@, advance.objects@),
            final(self)@.aligned(),
    {
        proof {
            use_type_invariant(&*self);
        }
        let mut taken = ColorUniverse::default();
        std::mem::swap(self, &mut taken);
        let ColorUniverse { objects: old_objects, mut colors, mut previous_positions, update_counter } =
            taken;
        let Advance { removed, objects } = advance;
        let len = old_objects.len();
        let mask = removal_mask(&removed, len);
        let ghost gone = reported(removed@);
        let ghost old_colors = colors@;
        let ghost old_buffers = previous_positions@;
        let mut i: usize = len;
        while i > 0
            invariant
                i <= len,
                len == old_colors.len(),
                len == old_buffers.len(),
                mask@.len() == len,
                forall|j: int| 0 <= j < len ==> mask@[j] == gone.contains(j),
                colors@ == old_colors.take(i as int) + kept_between(
                    old_colors,
                    gone,
                    i as int,
                    len as int,
                ),
                previous_positions@ == old_buffers.take(i as int) + kept_between(
                    old_buffers,
                    gone,
                    i as int,
                    len as int,
                ),
            decreases i,
        {
            i -= 1;
            proof {
                kept_between_front(old_colors, gone, i as int, len as int);
                kept_between_front(old_buffers, gone, i as int, len as int);
            }
            if mask[i] {
                colors.remove(i);
                previous_positions.remove(i);
            }
            assert(colors@ =~= old_colors.take(i as int) + kept_between(
                old_colors,
                gone,
                i as int,
                len as int,
            ));
            assert(previous_positions@ =~= old_buffers.take(i as int) + kept_between(
                old_buffers,
                gone,
                i as int,
                len as int,
            ));
        }
        proof {
            assert(colors@ =~= survivors(old_colors, gone));
            assert(previous_positions@ =~= survivors(old_buffers, gone));
            kept_between_len(old_colors, old_objects@, gone, 0, len as int);
            kept_between_len(old_buffers, old_objects@, gone, 0, len as int);
            kept_between_all(
                old_buffers,
                gone,
                0,
                len as int,
                |b: CapVecDeque| b@.len() <= b.capacity(),
            );
            kept_between_mapped(
                old_buffers,
                old(self)@.trails,
                |b: CapVecDeque| trail_of(b),
                gone,
                0,
                len as int,
            );
        }
        let update_counter = if update_counter + 1 == ADD_POSITION_MULTIPLE {
            0
        } else {
            update_counter + 1
        };
        let ghost unsampled = previous_positions@;
        if update_counter == 0 {
            let mut j: usize = 0;
            while j < objects.len()
                invariant
                    j <= objects@.len(),
                    previous_positions@.len() == objects@.len(),
                    unsampled.len() == objects@.len(),
                    forall|k: int|
                        0 <= k < previous_positions@.len() ==> (
                        #[trigger] previous_positions@[k])@.len() <= previous_positions@[k].capacity(),
                    forall|k: int|
                        0 <= k < j ==> trail_of(#[trigger] previous_positions@[k]) == trail_of(
                            unsampled[k],
                        ).record(objects@[k].position),
                    forall|k: int|
                        j <= k < objects@.len() ==> #[trigger] previous_positions@[k]
                            == unsampled[k],
                decreases objects@.len() - j,
            {
                let position = objects[j].position;
                previous_positions[j].add_element(position);
                j += 1;
            }
        }
        *self = ColorUniverse { objects, colors, previous_positions, update_counter };
        proof {
            let expected = old(self)@.advanced(removed@, objects@);
            assert(final(self)@.trails =~= expected.trails);
        }
    }
}

impl ColorUniverse {
    /// Advances the simulation once: has `engine` move the bodies by
    /// `iterations` steps of `time` each (a double's bit pattern) and takes
    /// over its report.
    ///
    /// A report that cannot belong to the bodies it was asked about (see
    /// `UniverseState::fits`) is turned down: then nothing changes and the
    /// result is `false`.
    pub fn update_state_repeat<E>(&mut self, time: u64, iterations: usize, engine: E) -> (advanced:
        bool) where E: FnOnce(&[Object], u64, usize) -> Advance
        requires
            forall|objects: &[Object]| call_requires(engine, (objects, time, iterations)),
        ensures
            final(self)@.aligned(),
            exists|objects: &[Object], advance: Advance|
                {
                    &&& objects@ == old(self)@.objects
                    &&& call_ensures(engine, (objects, time, iterations), advance)
                    &&& advanced == old(self)@.fits(advance.removed@, advance.objects@)
                    &&& final(self)@ == if advanced {
                        old(self)@.advanced(advance.removed@, advance.objects@)
                    } else {
                        old(self)@
                    }
                },
    {
        proof {
            use_type_invariant(&*self);
        }
        let objects = self.objects.as_slice();
        let advance = engine(objects, time, iterations);
        let ghost removed = advance.removed@;
        let ghost left = advance.objects@;
        let ghost witness = advance;
        let advanced = self.accepts(&advance);
        if advanced {
            self.apply_advance(advance);
        }
        proof {
            assert({
                &&& objects@ == old(self)@.objects
                &&& call_ensures(engine, (objects, time, iterations), witness)
                &&& advanced == old(self)@.fits(witness.removed@, witness.objects@)
                &&& final(self)@ == if advanced {
                    old(self)@.advanced(witness.removed@, witness.objects@)
                } else {
                    old(self)@
                }
            });
        }
        advanced
    }
}

impl Clone for ColorUniverse {
    /// An independent copy: the same bodies, colours and trails, each trail
    /// with its capacity.
    fn clone(&self) -> (copy: ColorUniverse)
        ensures
            copy@ == self@,
            copy@.aligned(),
    {
        proof {
            use_type_invariant(self);
        }
        let mut objects: Vec<Object> = Vec::new();
        let mut colors: Vec<ObjectColor> = Vec::new();
        let mut previous_positions: Vec<CapVecDeque> = Vec::new();
        let len = self.objects.len();
        let mut i: usize = 0;
        while i < len
            invariant
                i <= len,
                len == self.objects@.len(),
                len == self.colors@.len(),
                len == self.previous_positions@.len(),
                objects@ == self.objects@.take(i as int),
                colors@ == self.colors@.take(i as int),
                previous_positions@.len() == i,
                forall|k: int|
                    0 <= k < len ==> (#[trigger] self.previous_positions@[k])@.len()
                        <= self.previous_positions@[k].capacity(),
                forall|k: int|
                    0 <= k < i ==> trail_of(#[trigger] previous_positions@[k]) == trail_of(
                        self.previous_positions@[k],
                    ),
                forall|k: int|
                    0 <= k < i ==> (#[trigger] previous_positions@[k])@.len()
                        <= previous_positions@[k].capacity(),
            decreases len - i,
        {
            objects.push(self.objects[i]);
            colors.push(self.colors[i]);
            previous_positions.push(self.previous_positions[i].clone());
            i += 1;
        }
        let copy = ColorUniverse {
            objects,
            colors,
            previous_positions,
            update_counter: self.update_counter,
        };
        proof {
            assert(copy@.objects =~= self@.objects);
            assert(copy@.colors =~= self@.colors);
            assert(copy@.trails =~= self@.trails);
        }
        copy
    }
}

impl Default for ColorUniverse {
    /// A universe without bodies.
    fn default() -> (universe: ColorUniverse)
        ensures
            universe@ == UniverseState::empty(),
            universe@.aligned(),
    {
        let universe = ColorUniverse {
            objects: Vec::new(),
            colors: Vec::new(),
            previous_positions: Vec::new(),
            update_counter: 0,
        };
        assert(universe@.trails =~= UniverseState::empty().trails);
        universe
    }
}

} // verus!
