//! The fixed-timestep animator: frame times go in, whole ticks come out,
//! and each tick turns the animation by the same amount however long the
//! frame took.

use vstd::prelude::*;

verus! {

/// Nanoseconds in a second.
pub const NANOS_PER_SECOND: u64 = 1_000_000_000;

/// The highest tick rate, in ticks per second: a tick lasts a nanosecond
/// or longer.
pub const MAX_RATE: u32 = 1_000_000_000;

/// The ticks that fall due when `delta` nanoseconds pass at `rate` ticks per
/// second, with `carry` billionths of a tick left over from before.
pub open spec fn ticks_due(rate: nat, carry: nat, delta: nat) -> nat {
    (carry + delta * rate) / 1_000_000_000
}

/// The billionths of a tick that are left over afterwards.
pub open spec fn carry_after(rate: nat, carry: nat, delta: nat) -> nat {
    (carry + delta * rate) % 1_000_000_000
}

/// The rotation after `ticks` ticks of `increment` each, held at the
/// greatest value that fits once it is reached.
pub open spec fn turned(rotation: int, increment: nat, ticks: nat) -> int {
    if rotation + increment * ticks <= i64::MAX {
        rotation + increment * ticks
    } else {
        i64::MAX as int
    }
}

/// The state that animation advances: one angle, in thousandths of a
/// radian. Only an animator changes it; everything else reads it.
#[derive(Clone, Copy, Debug, PartialEq, Eq, Structural)]
pub struct AnimationState {
    pub rotation: i64,
}

/// An animator as a mathematical value.
pub struct AnimatorData {
    pub rate: nat,
    pub carry: nat,
    pub increment: nat,
    pub rotation: int,
}

impl AnimatorData {
    /// Whether this is the value of some animator: the rate is within its
    /// limits, less than a whole tick is carried, and the rotation fits.
    pub open spec fn well_formed(self) -> bool {
        &&& 1 <= self.rate <= MAX_RATE
        &&& self.carry < NANOS_PER_SECOND
        &&& i64::MIN <= self.rotation <= i64::MAX
    }

    /// The animator after a frame of `delta` nanoseconds.
    pub open spec fn step(self, delta: nat) -> AnimatorData {
        AnimatorData {
            rate: self.rate,
            carry: carry_after(self.rate, self.carry, delta),
            increment: self.increment,
            rotation: turned(
                self.rotation,
                self.increment,
                ticks_due(self.rate, self.carry, delta),
            ),
        }
    }

    /// The animator after the frames `deltas`, one after the other.
    pub open spec fn run(self, deltas: Seq<u64>) -> AnimatorData
        decreases deltas.len(),
    {
        if deltas.len() == 0 {
            self
        } else {
            self.run(deltas.drop_last()).step(deltas.last() as nat)
        }
    }

    /// The ticks that fall due over the frames `deltas`, all told.
    pub open spec fn run_ticks(self, deltas: Seq<u64>) -> nat
        decreases deltas.len(),
    {
        if deltas.len() == 0 {
            0
        } else {
            let before = self.run(deltas.drop_last());
            self.run_ticks(deltas.drop_last()) + ticks_due(
                before.rate,
                before.carry,
                deltas.last() as nat,
            )
        }
    }
}

/// The nanoseconds that the frames `deltas` take together.
pub open spec fn elapsed(deltas: Seq<u64>) -> nat
    decreases deltas.len(),
{
    if deltas.len() == 0 {
        0
    } else {
        elapsed(deltas.drop_last()) + deltas.last() as nat
    }
}

/// Turns frame times into ticks at a fixed rate and applies each tick to
/// the animation state.
#[derive(Clone, Copy, Debug)]
pub struct Animator {
    rate: u32,
    carry: u64,
    increment: u32,
    state: AnimationState,
}

impl View for Animator {
    type V = AnimatorData;

    closed spec fn view(&self) -> AnimatorData {
        AnimatorData {
            rate: self.rate as nat,
            carry: self.carry as nat,
            increment: self.increment as nat,
            rotation: self.state.rotation as int,
        }
    }
}

impl Animator {
    #[verifier::type_invariant]
    spec fn well_formed(self) -> bool {
        &&& 1 <= self.rate <= MAX_RATE
        &&& self.carry < NANOS_PER_SECOND
    }

    /// An animator that ticks `rate` times a second and turns the rotation,
    /// which starts at `rotation`, by `increment` at each tick. There is
    /// none for a rate of zero or one above `MAX_RATE`.
    pub fn new(rate: u32, increment: u32, rotation: i64) -> (made: Option<Animator>)
        ensures
            made is Some <==> 1 <= rate <= MAX_RATE,
            made matches Some(animator) ==> animator@.well_formed() && animator@ == (AnimatorData {
                rate: rate as nat,
                carry: 0,
                increment: increment as nat,
                rotation: rotation as int,
            }),
    {
        if rate == 0 || rate > MAX_RATE {
            None
        } else {
            Some(Animator { rate, carry: 0, increment, state: AnimationState { rotation } })
        }
    }

    /// The animation state, to read.
    pub fn state(&self) -> (state: AnimationState)
        ensures
            state.rotation == self@.rotation,
    {
        self.state
    }

    /// The tick rate, in ticks per second.
    pub fn rate(&self) -> (rate: u32)
        ensures
            rate == self@.rate,
            1 <= rate <= MAX_RATE,
    {
        proof {
            use_type_invariant(self);
        }
        self.rate
    }

    /// The angle by which one tick turns the rotation.
    pub fn increment(&self) -> (increment: u32)
        ensures
            increment == self@.increment,
    {
        self.increment
    }

    /// The time carried to the next frame, in billionths of a tick: always
    /// short of a whole tick.
    pub fn carry(&self) -> (carry: u64)
        ensures
            carry == self@.carry,
            carry < NANOS_PER_SECOND,
    {
        proof {
            use_type_invariant(self);
        }
        self.carry
    }

    /// Turns the rotation by `ticks` ticks that the host has counted.
    pub fn apply(&mut self, ticks: u64)
        ensures
            final(self)@.well_formed(),
            final(self)@ == (AnimatorData {
                rotation: turned(old(self)@.rotation, old(self)@.increment, ticks as nat),
                ..old(self)@
            }),
    {
        proof {
            use_type_invariant(&*self);
        }
        let increment = self.increment as i128;
        let count = ticks as i128;
        assert(0 <= increment * count <= 0xffff_ffff * 0xffff_ffff_ffff_ffff) by (nonlinear_arith)
            requires
                0 <= increment <= 0xffff_ffff,
                0 <= count <= 0xffff_ffff_ffff_ffff,
        ;
        let target: i128 = self.state.rotation as i128 + increment * count;
        if target <= i64::MAX as i128 {
            self.state = AnimationState { rotation: target as i64 };
        } else {
            self.state = AnimationState { rotation: i64::MAX };
        }
    }

    /// Lets `delta` nanoseconds of frame time pass and returns the ticks
    /// that fell due, each of which has turned the rotation by the
    /// increment. Time short of a tick is carried to the next call.
    pub fn advance(&mut self, delta: u64) -> (ticks: u64)
        ensures
            ticks == ticks_due(old(self)@.rate, old(self)@.carry, delta as nat),
            final(self)@ == old(self)@.step(delta as nat),
            final(self)@.well_formed(),
    {
        proof {
            use_type_invariant(&*self);
        }
        let rate = self.rate as u128;
        let span = delta as u128;
        assert(0 <= span * rate <= 0xffff_ffff_ffff_ffff * 1_000_000_000) by (nonlinear_arith)
            requires
                0 <= span <= 0xffff_ffff_ffff_ffff,
                0 <= rate <= 1_000_000_000,
        ;
        let total: u128 = self.carry as u128 + span * rate;
        let ticks = (total / (NANOS_PER_SECOND as u128)) as u64;
        self.carry = (total % (NANOS_PER_SECOND as u128)) as u64;
        self.apply(ticks);
        ticks
    }
}

/// Frame-rate independence, one step at a time: two frames bring the
/// animator to where one frame of their joint length brings it, with the
/// same ticks all told.
pub proof fn lemma_frames_join(animator: AnimatorData, first: nat, second: nat)
    ensures
        animator.step(first).step(second) == animator.step(first + second),
        ticks_due(animator.rate, animator.carry, first) + ticks_due(
            animator.rate,
            carry_after(animator.rate, animator.carry, first),
            second,
        ) == ticks_due(animator.rate, animator.carry, first + second),
{
    let r = animator.rate;
    let c = animator.carry;
    let inc = animator.increment;
    assert((first + second) * r == first * r + second * r) by (nonlinear_arith);
    let t1 = ticks_due(r, c, first);
    let c1 = carry_after(r, c, first);
    let t2 = ticks_due(r, c1, second);
    let t = ticks_due(r, c, first + second);
    assert(t1 + t2 == t);
    assert(carry_after(r, c1, second) == carry_after(r, c, first + second));
    assert(inc * t == inc * t1 + inc * t2) by (nonlinear_arith)
        requires
            t == t1 + t2,
    ;
    assert(inc * t1 >= 0 && inc * t2 >= 0) by (nonlinear_arith);
}

/// Fixed-step determinism: over any run of frames, the ticks that fall due
/// are the whole ticks in the time that the frames take together, counted
/// from what was carried in, and the rotation has grown by exactly that
/// many increments, unless it has reached the greatest value that fits.
pub proof fn lemma_fixed_step(animator: AnimatorData, deltas: Seq<u64>)
    requires
        animator.well_formed(),
    ensures
        animator.run_ticks(deltas) == (animator.carry + elapsed(deltas) * animator.rate)
            / 1_000_000_000,
        animator.run(deltas).rate == animator.rate,
        animator.run(deltas).increment == animator.increment,
        animator.run(deltas).carry == (animator.carry + elapsed(deltas) * animator.rate)
            % 1_000_000_000,
        animator.run(deltas).rotation == turned(
            animator.rotation,
            animator.increment,
            animator.run_ticks(deltas),
        ),
        animator.carry == 0 ==> animator.run_ticks(deltas) * 1_000_000_000 <= elapsed(deltas)
            * animator.rate < (animator.run_ticks(deltas) + 1) * 1_000_000_000,
    decreases deltas.len(),
{
    if deltas.len() > 0 {
        let rest = deltas.drop_last();
        let last = deltas.last() as nat;
        lemma_fixed_step(animator, rest);
        let r = animator.rate;
        let inc = animator.increment;
        let before = animator.run(rest);
        let t0 = animator.run_ticks(rest);
        let t1 = ticks_due(r, before.carry, last);
        let whole = animator.carry + elapsed(rest) * r;
        let more = last * r;
        assert((elapsed(rest) + last) * r == elapsed(rest) * r + last * r) by (nonlinear_arith);
        assert(animator.carry + elapsed(deltas) * r == whole + more);
        assert(t0 == whole / 1_000_000_000);
        assert(before.carry == whole % 1_000_000_000);
        assert(t1 == (whole % 1_000_000_000 + more) / 1_000_000_000);
        assert(t0 + t1 == (whole + more) / 1_000_000_000);
        assert(inc * (t0 + t1) == inc * t0 + inc * t1) by (nonlinear_arith);
        assert(inc * t0 >= 0 && inc * t1 >= 0) by (nonlinear_arith);
    } else {
        assert(elapsed(deltas) * animator.rate == 0) by (nonlinear_arith)
            requires
                elapsed(deltas) == 0,
        ;
        assert(animator.increment * 0 == 0) by (nonlinear_arith);
    }
}

} // verus!
