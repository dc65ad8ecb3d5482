use vstd::prelude::*;

verus! {

/// Iteration cap of the renderer. A point whose orbit is still within the
/// escape radius after this many steps is taken to be interior.
pub const MAX_ITER: u32 = 255;

/// Length of the run of `true` at the front of `inside`.
///
/// `inside[k]` tells whether the `k`-th point of an orbit, the starting point
/// being the 0-th, lies within the escape radius.
pub open spec fn leading_inside(inside: Seq<bool>) -> nat
    decreases inside.len(),
{
    if inside.len() == 0 || !inside[0] {
        0
    } else {
        1 + leading_inside(inside.drop_first())
    }
}

/// The escape-time count of an orbit: the number of steps taken before the
/// orbit is first seen outside the escape radius, never more than `cap`.
pub open spec fn escape_count(inside: Seq<bool>, cap: nat) -> nat {
    if leading_inside(inside) < cap {
        leading_inside(inside)
    } else {
        cap
    }
}

/// The leading run is a prefix of `inside`, all of it `true`, and it ends at
/// the end of `inside` or at a `false`.
pub proof fn lemma_leading_inside(inside: Seq<bool>)
    ensures
        leading_inside(inside) <= inside.len(),
        forall|k: int| 0 <= k < leading_inside(inside) ==> inside[k],
        leading_inside(inside) < inside.len() ==> !inside[leading_inside(inside) as int],
    decreases inside.len(),
{
    if inside.len() != 0 && inside[0] {
        let rest = inside.drop_first();
        lemma_leading_inside(rest);
        assert forall|k: int| 0 <= k < leading_inside(inside) implies inside[k] by {
            if k > 0 {
                assert(inside[k] == rest[k - 1]);
            }
        }
        if leading_inside(inside) < inside.len() {
            assert(inside[leading_inside(inside) as int] == rest[leading_inside(rest) as int]);
        }
    }
}

/// Any `k` that bounds a run of `true` which ends at the end of `inside` or
/// at a `false` is the length of the leading run.
pub proof fn lemma_leading_inside_is(inside: Seq<bool>, k: nat)
    requires
        k <= inside.len(),
        forall|i: int| 0 <= i < k ==> inside[i],
        k < inside.len() ==> !inside[k as int],
    ensures
        leading_inside(inside) == k,
{
    lemma_leading_inside(inside);
    let n = leading_inside(inside);
    if n < k {
        assert(inside[n as int]);
    } else if k < n {
        assert(inside[k as int]);
    }
}

/// One more observation lengthens the leading run exactly when every
/// observation so far, and the new one, is `true`.
pub proof fn lemma_leading_inside_push(inside: Seq<bool>, next: bool)
    ensures
        leading_inside(inside.push(next)) == if leading_inside(inside) == inside.len() && next {
            inside.len() + 1
        } else {
            leading_inside(inside)
        },
{
    lemma_leading_inside(inside);
    let n = leading_inside(inside);
    let longer = inside.push(next);
    if n == inside.len() && next {
        assert forall|i: int| 0 <= i < n + 1 implies longer[i] by {
            if i < n {
                assert(longer[i] == inside[i]);
            }
        }
        lemma_leading_inside_is(longer, n + 1);
    } else {
        assert forall|i: int| 0 <= i < n implies longer[i] by {
            assert(longer[i] == inside[i]);
        }
        if n < inside.len() {
            assert(longer[n as int] == inside[n as int]);
        }
        lemma_leading_inside_is(longer, n);
    }
}

/// What an escape-time evaluation has counted so far.
///
/// The caller owns the orbit. Before each step it tells the counter whether
/// the current point lies within the escape radius, and takes the step only
/// if the counter says so.
pub struct EscapeCounter {
    cap: u32,
    count: u32,
    running: bool,
    seen: Ghost<Seq<bool>>,
}

impl View for EscapeCounter {
    type V = Seq<bool>;

    /// The observations made so far, oldest first.
    closed spec fn view(&self) -> Seq<bool> {
        self.seen@
    }
}

impl EscapeCounter {
    /// The iteration cap that the counter was made with.
    pub closed spec fn limit(&self) -> nat {
        self.cap as nat
    }

    /// The counter holds the escape-time count of what it has observed.
    pub closed spec fn wf(&self) -> bool {
        &&& self.count == escape_count(self.seen@, self.cap as nat)
        &&& self.running == (leading_inside(self.seen@) == self.seen@.len())
    }

    /// A counter that has observed nothing yet.
    pub fn new(cap: u32) -> (counter: Self)
        ensures
            counter.wf(),
            counter@ == Seq::<bool>::empty(),
            counter.limit() == cap,
    {
        EscapeCounter { cap, count: 0, running: true, seen: Ghost(Seq::empty()) }
    }

    /// Records whether the orbit's current point lies within the escape
    /// radius. Returns `true` when the orbit is to take one more step, which
    /// the counter then has counted, and `false` when the evaluation is over.
    pub fn observe(&mut self, inside: bool) -> (again: bool)
        requires
            old(self).wf(),
        ensures
            final(self).wf(),
            final(self)@ == old(self)@.push(inside),
            final(self).limit() == old(self).limit(),
            again == (inside && leading_inside(old(self)@) == old(self)@.len() && old(self)@.len()
                < old(self).limit()),
            again == (leading_inside(final(self)@) == final(self)@.len() && final(self)@.len()
                <= final(self).limit()),
            escape_count(final(self)@, final(self).limit()) == escape_count(
                old(self)@,
                old(self).limit(),
            ) + if again {
                1nat
            } else {
                0nat
            },
    {
        proof {
            lemma_leading_inside(self.seen@);
            lemma_leading_inside_push(self.seen@, inside);
        }
        self.seen = Ghost(self.seen@.push(inside));
        if self.running && inside {
            if self.count < self.cap {
                self.count = self.count + 1;
                true
            } else {
                false
            }
        } else {
            self.running = false;
            false
        }
    }

    /// The escape-time count of the observations made so far.
    pub fn count(&self) -> (n: u32)
        requires
            self.wf(),
        ensures
            n == escape_count(self@, self.limit()),
            n <= self.limit(),
    {
        self.count
    }

    /// The iteration cap.
    pub fn cap(&self) -> (cap: u32)
        ensures
            cap == self.limit(),
    {
        self.cap
    }
}

/// An orbit whose starting point already lies outside the escape radius
/// has count zero.
pub proof fn lemma_outside_start_counts_zero(inside: Seq<bool>, cap: nat)
    requires
        inside.len() > 0,
        !inside[0],
    ensures
        escape_count(inside, cap) == 0,
{
}

/// A count lies between zero and the cap.
pub proof fn lemma_count_within_cap(inside: Seq<bool>, cap: nat)
    ensures
        0 <= escape_count(inside, cap) <= cap,
{
}

/// Two counters with the same cap that were told the same observations hold
/// the same count.
pub proof fn lemma_same_orbit_same_count(a: EscapeCounter, b: EscapeCounter)
    requires
        a.wf(),
        b.wf(),
        a.limit() == b.limit(),
        a@ == b@,
    ensures
        escape_count(a@, a.limit()) == escape_count(b@, b.limit()),
{
}

} // verus!
