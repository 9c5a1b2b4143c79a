//! A memoizing cache around a unary function on `u32`.
use std::collections::HashMap;
use vstd::prelude::*;

verus! {

broadcast use vstd::std_specs::hash::group_hash_axioms;

/// Remembers the result of `calculation` for each argument it was called with,
/// so that the function runs at most once per distinct argument.
pub struct Catcher<T> where T: Fn(u32) -> u32 {
    cache: HashMap<u32, u32>,
    calculation: T,
    /// The arguments the function has been invoked with, in order.
    calls: Ghost<Seq<u32>>,
}

impl<T> Catcher<T> where T: Fn(u32) -> u32 {
    /// The stored results, keyed by argument.
    pub closed spec fn cached(&self) -> Map<u32, u32> {
        self.cache@
    }

    /// Every invocation of the wrapped function so far, oldest first.
    pub closed spec fn calls(&self) -> Seq<u32> {
        self.calls@
    }

    /// The wrapped function.
    pub closed spec fn function(&self) -> T {
        self.calculation
    }

    /// The cache invariant: the function accepts every argument, each stored
    /// value is a result the function gave for its key, and the function was
    /// invoked exactly once for each stored key and never otherwise.
    pub open spec fn wf(&self) -> bool {
        &&& forall|x: u32| call_requires(self.function(), (x,))
        &&& forall|k: u32| #[trigger]
            self.cached().contains_key(k) ==> call_ensures(self.function(), (k,), self.cached()[k])
        &&& self.calls().no_duplicates()
        &&& forall|k: u32| #[trigger] self.cached().contains_key(k) <==> self.calls().contains(k)
    }

    /// What one `value(arg)` call does, taking `self` to `next` and returning `r`:
    /// on a hit the stored result comes back and nothing is invoked; on a miss the
    /// function is invoked once on `arg` and its result is stored and returned.
    pub open spec fn lookup(&self, arg: u32, next: Self, r: u32) -> bool {
        &&& next.function() == self.function()
        &&& if self.cached().contains_key(arg) {
            &&& r == self.cached()[arg]
            &&& next.cached() == self.cached()
            &&& next.calls() == self.calls()
        } else {
            &&& call_ensures(self.function(), (arg,), r)
            &&& next.cached() == self.cached().insert(arg, r)
            &&& next.calls() == self.calls().push(arg)
        }
    }

    /// An empty cache around `function`.
    pub fn new(function: T) -> (r: Catcher<T>)
        requires
            forall|x: u32| call_requires(function, (x,)),
        ensures
            r.wf(),
            r.function() == function,
            r.cached() == Map::<u32, u32>::empty(),
            r.calls() == Seq::<u32>::empty(),
    {
        Catcher { cache: HashMap::new(), calculation: function, calls: Ghost(Seq::empty()) }
    }

    /// The function's result for `arg`, computed on the first request only.
    pub fn value(&mut self, arg: u32) -> (r: u32)
        requires
            old(self).wf(),
        ensures
            final(self).wf(),
            old(self).lookup(arg, *final(self), r),
    {
        match self.cache.get(&arg) {
            None => {
                assert(call_requires(self.function(), (arg,)));
                let value = (self.calculation)(arg);
                self.cache.insert(arg, value);
                let ghost prev = self.calls@;
                self.calls = Ghost(prev.push(arg));
                proof {
                    // The new key was not logged before, so the log stays free of repeats.
                    assert(!prev.contains(arg)) by {
                        assert(!old(self).cached().contains_key(arg));
                    }
                    assert forall|k: u32| #[trigger]
                        self.cached().contains_key(k) <==> self.calls().contains(k) by {
                        assert(old(self).cached().contains_key(k) <==> prev.contains(k));
                        if k == arg {
                            assert(self.calls()[prev.len() as int] == arg);
                        } else if prev.contains(k) {
                            let i = choose|i: int| 0 <= i < prev.len() && prev[i] == k;
                            assert(self.calls()[i] == k);
                        } else if self.calls().contains(k) {
                            let i = choose|i: int|
                                0 <= i < self.calls().len() && self.calls()[i] == k;
                            assert(prev[i] == k);
                        }
                    }
                    assert forall|k: u32| #[trigger]
                        self.cached().contains_key(k) implies call_ensures(
                        self.function(),
                        (k,),
                        self.cached()[k],
                    ) by {
                        if k != arg {
                            assert(old(self).cached().contains_key(k));
                        }
                    }
                    assert forall|i: int, j: int|
                        0 <= i < self.calls().len() && 0 <= j < self.calls().len() && i
                            != j implies self.calls()[i] != self.calls()[j] by {
                        if i == prev.len() {
                            assert(prev[j] == self.calls()[j]);
                        } else if j == prev.len() {
                            assert(prev[i] == self.calls()[i]);
                        }
                    }
                }
                value
            },
            Some(v) => *v,
        }
    }
}

/// Intensities below this get a strength workout.
pub const STRENGTH_BELOW: u32 = 25;

/// The random draw that turns a hard day into a rest day.
pub const REST_DRAW: u32 = 3;

/// A day's exercise plan.
#[derive(Debug, Clone, Copy, PartialEq, Eq, Structural)]
pub enum Workout {
    /// Push-ups, then sit-ups.
    Strength { pushups: u32, situps: u32 },
    /// No exercise; drink water.
    Rest,
    /// A run of the given length in minutes.
    Run { minutes: u32 },
}

/// Plans a workout whose amounts come from the (slow) `calculation` on the
/// intensity, asked for through a cache so that it runs at most once: a light
/// day gets push-ups and sit-ups of the same amount, a hard day a run, unless
/// the random draw calls for rest.
pub fn generate_workout<T: Fn(u32) -> u32>(intensity: u32, random_number: u32, calculation: T) -> (r:
    Workout)
    requires
        forall|x: u32| call_requires(calculation, (x,)),
    ensures
        match r {
            Workout::Strength { pushups, situps } => {
                &&& intensity < STRENGTH_BELOW
                &&& pushups == situps
                &&& call_ensures(calculation, (intensity,), pushups)
            },
            Workout::Rest => intensity >= STRENGTH_BELOW && random_number == REST_DRAW,
            Workout::Run { minutes } => {
                &&& intensity >= STRENGTH_BELOW
                &&& random_number != REST_DRAW
                &&& call_ensures(calculation, (intensity,), minutes)
            },
        },
{
    let mut catcher = Catcher::new(calculation);
    if intensity < STRENGTH_BELOW {
        let pushups = catcher.value(intensity);
        let situps = catcher.value(intensity);
        Workout::Strength { pushups, situps }
    } else if random_number == REST_DRAW {
        Workout::Rest
    } else {
        let minutes = catcher.value(intensity);
        Workout::Run { minutes }
    }
}

/// Two requests in a row for the same argument invoke the function at most once
/// between them, exactly once when the argument was not cached before, and never
/// on the second request, which returns the first request's answer.
pub proof fn lemma_repeated_lookup<T: Fn(u32) -> u32>(
    c0: Catcher<T>,
    c1: Catcher<T>,
    c2: Catcher<T>,
    k: u32,
    r1: u32,
    r2: u32,
)
    requires
        c0.lookup(k, c1, r1),
        c1.lookup(k, c2, r2),
    ensures
        r2 == r1,
        c2.calls() == c1.calls(),
        c2.cached() == c1.cached(),
        c2.cached()[k] == r1,
        c2.calls() == if c0.cached().contains_key(k) {
            c0.calls()
        } else {
            c0.calls().push(k)
        },
{
}

/// Requests for two different arguments are served independently: each is
/// invoked only if it was not cached already, and each answer stays stored
/// under its own argument.
pub proof fn lemma_distinct_lookups<T: Fn(u32) -> u32>(
    c0: Catcher<T>,
    c1: Catcher<T>,
    c2: Catcher<T>,
    k1: u32,
    k2: u32,
    r1: u32,
    r2: u32,
)
    requires
        k1 != k2,
        c0.lookup(k1, c1, r1),
        c1.lookup(k2, c2, r2),
    ensures
        c2.cached()[k1] == r1,
        c2.cached()[k2] == r2,
        c2.calls() == if c0.cached().contains_key(k1) {
            c0.calls()
        } else {
            c0.calls().push(k1)
        } + if c0.cached().contains_key(k2) {
            Seq::<u32>::empty()
        } else {
            seq![k2]
        },
        !c0.cached().contains_key(k1) ==> call_ensures(c0.function(), (k1,), r1),
        !c0.cached().contains_key(k2) ==> call_ensures(c0.function(), (k2,), r2),
{
    let s1 = if c0.cached().contains_key(k1) {
        c0.calls()
    } else {
        c0.calls().push(k1)
    };
    assert(c1.cached().contains_key(k2) == c0.cached().contains_key(k2));
    assert(c2.calls() =~= s1 + if c0.cached().contains_key(k2) {
        Seq::<u32>::empty()
    } else {
        seq![k2]
    });
}

/// A request never forgets or changes a stored result, and a hit returns the
/// stored result rather than a new one.
pub proof fn lemma_lookup_keeps_entries<T: Fn(u32) -> u32>(
    c0: Catcher<T>,
    c1: Catcher<T>,
    k: u32,
    r: u32,
)
    requires
        c0.lookup(k, c1, r),
    ensures
        c0.cached().submap_of(c1.cached()),
        c0.calls().is_prefix_of(c1.calls()),
        c0.cached().contains_key(k) ==> r == c0.cached()[k],
{
    assert(c0.calls().is_prefix_of(c1.calls())) by {
        if !c0.cached().contains_key(k) {
            assert(c1.calls().subrange(0, c0.calls().len() as int) =~= c0.calls());
        }
    }
}

} // verus!
