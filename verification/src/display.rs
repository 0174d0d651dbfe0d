use vstd::prelude::*;

use crate::direction::Direction;

verus! {

/// The on/off levels that the display holds for a sector: exactly the LED at
/// the sector's index is on, the other seven are off.
pub open spec fn led_target(d: Direction) -> Seq<bool> {
    Seq::new(8, |i: int| i == d.index_spec())
}

/// All eight LEDs off: the state of a freshly created display.
pub open spec fn led_all_off() -> Seq<bool> {
    Seq::new(8, |i: int| false)
}

/// The on/off state of the eight indicator LEDs, one level per LED, in the
/// same order as the variants of `Direction`.
pub struct LedStates {
    on: Vec<bool>,
}

impl View for LedStates {
    type V = Seq<bool>;

    closed spec fn view(&self) -> Seq<bool> {
        self.on@
    }
}

impl LedStates {
    pub open spec fn wf(&self) -> bool {
        self@.len() == 8
    }

    /// A display with every LED off.
    pub fn new() -> (l: LedStates)
        ensures
            l.wf(),
            l@ == led_all_off(),
    {
        let mut on: Vec<bool> = Vec::new();
        let mut i: usize = 0;
        while i < 8
            invariant
                i <= 8,
                on@.len() == i as int,
                forall|j: int| 0 <= j < i ==> !on@[j],
            decreases 8 - i,
        {
            on.push(false);
            i += 1;
        }
        let l = LedStates { on };
        proof {
            assert(l@ =~= led_all_off());
        }
        l
    }

    /// The level of one LED.
    pub fn is_on(&self, i: usize) -> (b: bool)
        requires
            self.wf(),
            i < 8,
        ensures
            b == self@[i as int],
    {
        self.on[i]
    }

    /// How many LEDs are on. Zero right after `new`, one after any `show`.
    pub fn count_on(&self) -> (n: usize)
        requires
            self.wf(),
        ensures
            n as int == count_on_seq(self@, 8),
    {
        let mut n: usize = 0;
        let mut i: usize = 0;
        while i < 8
            invariant
                self.wf(),
                i <= 8,
                n as int == count_on_seq(self@, i as int),
                n <= i,
            decreases 8 - i,
        {
            if self.on[i] {
                n += 1;
            }
            i += 1;
        }
        n
    }
}

/// The number of `true` levels among the first `k` entries.
pub open spec fn count_on_seq(s: Seq<bool>, k: int) -> int
    decreases k,
{
    if k <= 0 {
        0
    } else {
        count_on_seq(s, k - 1) + if s[k - 1] {
            1int
        } else {
            0int
        }
    }
}

/// Display driver: drive the eight LEDs to show one sector. All eight LEDs
/// are switched off first, then the one at the sector's index is switched
/// on, so at no point do two LEDs overlap. The final state is a function of
/// the sector alone — it never depends on what the display held before, so
/// repeating the call with the same sector reproduces exactly the same
/// state, with no accumulation.
pub fn show(dir: Direction, leds: &mut LedStates)
    requires
        old(leds).wf(),
    ensures
        final(leds).wf(),
        final(leds)@ == led_target(dir),
{
    let mut i: usize = 0;
    while i < 8
        invariant
            leds.wf(),
            i <= 8,
            forall|j: int| 0 <= j < i ==> !leds@[j],
        decreases 8 - i,
    {
        leds.on.set(i, false);
        i += 1;
    }
    let idx = dir.index();
    leds.on.set(idx, true);
    proof {
        assert(leds@ =~= led_target(dir));
    }
}

/// Mutual exclusivity of the display: in the state that `show` leaves for a
/// sector, the LED at the sector's index is on and every other LED is off,
/// so exactly one of the eight levels is high.
pub proof fn lemma_show_exclusive(d: Direction)
    ensures
        led_target(d)[d.index_spec()],
        forall|j: int| 0 <= j < 8 && j != d.index_spec() ==> !led_target(d)[j],
        count_on_seq(led_target(d), 8) == 1,
{
    lemma_count_single(led_target(d), d.index_spec(), 8);
}

/// Idempotence of the display update: two `show` calls with the same sector
/// leave identical states, because each post-state is `led_target` of the
/// sector and nothing else.
pub proof fn lemma_show_idempotent(d: Direction, first: Seq<bool>, second: Seq<bool>)
    requires
        first == led_target(d),
        second == led_target(d),
    ensures
        first == second,
        count_on_seq(first, 8) == 1,
{
    lemma_show_exclusive(d);
}

/// Counting helper: a sequence that is `true` exactly at `at` has `k` prefix
/// count 1 once the prefix passes `at`.
proof fn lemma_count_single(s: Seq<bool>, at: int, k: int)
    requires
        0 <= at < s.len(),
        k <= s.len(),
        forall|j: int| 0 <= j < s.len() ==> (s[j] <==> j == at),
    ensures
        count_on_seq(s, k) == if k > at {
            1int
        } else {
            0int
        },
    decreases k,
{
    if k > 0 {
        lemma_count_single(s, at, k - 1);
    }
}

} // verus!
