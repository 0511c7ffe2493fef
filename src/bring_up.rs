//! The hardware bring-up sequence as a step machine.
//!
//! Each step names one thing the firmware does to the registers or the
//! engine. The firmware asks for the current step, carries it out, and
//! reports back; for the two polling steps the report is whether the polled
//! condition holds. The sequence has no way back and no timeout: a poll that
//! never succeeds keeps the machine on that step.
use vstd::prelude::*;

verus! {

/// One step of the bring-up sequence, in the order they are carried out.
#[derive(Clone, Copy, Debug, PartialEq, Eq, Structural)]
pub enum Step {
    /// Turn on the USB pad regulator.
    EnableRegulator,
    /// Enable the USB controller with its clock still frozen.
    EnableController,
    /// Select the PLL input divisor and turn the PLL on.
    StartPll,
    /// Poll the PLL lock bit; report whether it is set.
    AwaitPllLock,
    /// Unfreeze the controller clock and enable the On-The-Go pad.
    UnfreezeClock,
    /// Clear the detach bit so that the host sees the device.
    Attach,
    /// Enable the end-of-reset and start-of-frame interrupt sources.
    ArmInterrupts,
    /// Call the transfer engine's initialisation.
    InitEngine,
    /// Enable interrupts globally.
    EnableInterrupts,
    /// Poll the engine's "configured" query; report whether it holds.
    AwaitConfigured,
    /// Bring-up is complete: the stream and the control signals may be used.
    Ready,
}

/// The position of a step in the sequence.
pub open spec fn rank(s: Step) -> nat {
    match s {
        Step::EnableRegulator => 0,
        Step::EnableController => 1,
        Step::StartPll => 2,
        Step::AwaitPllLock => 3,
        Step::UnfreezeClock => 4,
        Step::Attach => 5,
        Step::ArmInterrupts => 6,
        Step::InitEngine => 7,
        Step::EnableInterrupts => 8,
        Step::AwaitConfigured => 9,
        Step::Ready => 10,
    }
}

/// Whether the step polls a condition and waits on it.
pub open spec fn is_poll(s: Step) -> bool {
    s == Step::AwaitPllLock || s == Step::AwaitConfigured
}

/// The step that follows `s` once it was carried out; `reply` is whether the
/// polled condition held, and is ignored by the other steps.
pub open spec fn next_step(s: Step, reply: bool) -> Step {
    match s {
        Step::EnableRegulator => Step::EnableController,
        Step::EnableController => Step::StartPll,
        Step::StartPll => Step::AwaitPllLock,
        Step::AwaitPllLock => if reply {
            Step::UnfreezeClock
        } else {
            Step::AwaitPllLock
        },
        Step::UnfreezeClock => Step::Attach,
        Step::Attach => Step::ArmInterrupts,
        Step::ArmInterrupts => Step::InitEngine,
        Step::InitEngine => Step::EnableInterrupts,
        Step::EnableInterrupts => Step::AwaitConfigured,
        Step::AwaitConfigured => if reply {
            Step::Ready
        } else {
            Step::AwaitConfigured
        },
        Step::Ready => Step::Ready,
    }
}

/// Where the device's bring-up stands.
#[derive(Debug)]
pub struct BringUp {
    step: Step,
}

impl View for BringUp {
    type V = Step;

    closed spec fn view(&self) -> Step {
        self.step
    }
}

impl BringUp {
    /// A device that has not been powered yet.
    pub fn new() -> (r: BringUp)
        ensures
            r@ == Step::EnableRegulator,
    {
        BringUp { step: Step::EnableRegulator }
    }

    /// The step to carry out now.
    pub fn current(&self) -> (r: Step)
        ensures
            r == self@,
    {
        self.step
    }

    /// Whether bring-up is complete.
    pub fn is_ready(&self) -> (r: bool)
        ensures
            r == (self@ == Step::Ready),
    {
        self.step == Step::Ready
    }

    /// Reports that the current step was carried out; for a polling step,
    /// `reply` is whether the polled condition held.
    pub fn advance(&mut self, reply: bool)
        ensures
            final(self)@ == next_step(old(self)@, reply),
    {
        self.step = match self.step {
            Step::EnableRegulator => Step::EnableController,
            Step::EnableController => Step::StartPll,
            Step::StartPll => Step::AwaitPllLock,
            Step::AwaitPllLock => if reply {
                Step::UnfreezeClock
            } else {
                Step::AwaitPllLock
            },
            Step::UnfreezeClock => Step::Attach,
            Step::Attach => Step::ArmInterrupts,
            Step::ArmInterrupts => Step::InitEngine,
            Step::InitEngine => Step::EnableInterrupts,
            Step::EnableInterrupts => Step::AwaitConfigured,
            Step::AwaitConfigured => if reply {
                Step::Ready
            } else {
                Step::AwaitConfigured
            },
            Step::Ready => Step::Ready,
        };
    }
}

/// The sequence only moves forward, one step at a time: a step other than a
/// failed poll is followed by the next one in order, and a failed poll stays
/// where it is.
pub proof fn lemma_forward_only(s: Step, reply: bool)
    ensures
        rank(next_step(s, reply)) >= rank(s),
        s != Step::Ready && !(is_poll(s) && !reply) ==> rank(next_step(s, reply)) == rank(s) + 1,
        is_poll(s) && !reply ==> next_step(s, reply) == s,
        s == Step::Ready ==> next_step(s, reply) == Step::Ready,
{
}

/// What a collaborator answers to step `s` when its PLL reports lock on the
/// `pll`-th lock poll still to come and its engine reports "configured" on
/// the `cfg`-th configured poll still to come (0 and 1 both mean the next).
pub open spec fn simulated_reply(s: Step, pll: nat, cfg: nat) -> bool {
    match s {
        Step::AwaitPllLock => pll <= 1,
        Step::AwaitConfigured => cfg <= 1,
        _ => true,
    }
}

/// The steps carried out from `s` until the device is ready, against the
/// collaborator of [`simulated_reply`].
pub open spec fn steps_carried_out(s: Step, pll: nat, cfg: nat) -> Seq<Step>
    decreases 10 - rank(s), pll + cfg,
{
    if s == Step::Ready {
        seq![]
    } else {
        let reply = simulated_reply(s, pll, cfg);
        let pll_left: nat = if s == Step::AwaitPllLock && !reply { (pll - 1) as nat } else { pll };
        let cfg_left: nat = if s == Step::AwaitConfigured && !reply { (cfg - 1) as nat } else { cfg };
        seq![s] + steps_carried_out(next_step(s, reply), pll_left, cfg_left)
    }
}

/// `n` copies of one step.
pub open spec fn repeated(s: Step, n: nat) -> Seq<Step> {
    Seq::new(n, |i: int| s)
}

/// The steps from the moment the PLL is locked until the engine is polled.
pub open spec fn after_lock() -> Seq<Step> {
    seq![
        Step::UnfreezeClock,
        Step::Attach,
        Step::ArmInterrupts,
        Step::InitEngine,
        Step::EnableInterrupts,
    ]
}

proof fn lemma_configured_polls(pll: nat, cfg: nat)
    requires
        cfg >= 1,
    ensures
        steps_carried_out(Step::AwaitConfigured, pll, cfg) == repeated(Step::AwaitConfigured, cfg),
    decreases cfg,
{
    if cfg == 1 {
        assert(steps_carried_out(Step::Ready, pll, cfg) == Seq::<Step>::empty());
        assert(steps_carried_out(Step::AwaitConfigured, pll, cfg) =~= repeated(Step::AwaitConfigured, cfg));
    } else {
        lemma_configured_polls(pll, (cfg - 1) as nat);
        assert(steps_carried_out(Step::AwaitConfigured, pll, cfg) =~= repeated(Step::AwaitConfigured, cfg));
    }
}

proof fn lemma_lock_polls(pll: nat, cfg: nat)
    requires
        pll >= 1,
        cfg >= 1,
    ensures
        steps_carried_out(Step::AwaitPllLock, pll, cfg) == repeated(Step::AwaitPllLock, pll)
            + after_lock() + repeated(Step::AwaitConfigured, cfg),
    decreases pll,
{
    let tail = after_lock() + repeated(Step::AwaitConfigured, cfg);
    if pll == 1 {
        lemma_configured_polls(pll, cfg);
        let c = repeated(Step::AwaitConfigured, cfg);
        assert(steps_carried_out(Step::EnableInterrupts, pll, cfg) == seq![Step::EnableInterrupts] + c);
        assert(steps_carried_out(Step::InitEngine, pll, cfg) =~= seq![Step::InitEngine, Step::EnableInterrupts] + c);
        assert(steps_carried_out(Step::ArmInterrupts, pll, cfg) =~= seq![
            Step::ArmInterrupts,
            Step::InitEngine,
            Step::EnableInterrupts,
        ] + c);
        assert(steps_carried_out(Step::Attach, pll, cfg) =~= seq![
            Step::Attach,
            Step::ArmInterrupts,
            Step::InitEngine,
            Step::EnableInterrupts,
        ] + c);
        assert(steps_carried_out(Step::UnfreezeClock, pll, cfg) =~= after_lock() + c);
        assert(steps_carried_out(Step::AwaitPllLock, pll, cfg) =~= repeated(Step::AwaitPllLock, pll) + tail);
    } else {
        lemma_lock_polls((pll - 1) as nat, cfg);
        assert(steps_carried_out(Step::AwaitPllLock, pll, cfg) =~= repeated(Step::AwaitPllLock, pll) + tail);
    }
}

/// Bring-up against a collaborator whose PLL locks on its `pll`-th lock poll
/// and whose engine is configured on its `cfg`-th configured poll carries out
/// exactly these steps, in this order: the three setup steps, `pll` lock
/// polls, the steps from unfreezing the clock to enabling interrupts (engine
/// initialisation among them), then `cfg` configured polls, after which the
/// device is ready. So the PLL is locked before the engine is initialised,
/// and the engine is initialised before it is polled.
pub proof fn lemma_bring_up_order(pll: nat, cfg: nat)
    requires
        pll >= 1,
        cfg >= 1,
    ensures
        steps_carried_out(Step::EnableRegulator, pll, cfg) == seq![
            Step::EnableRegulator,
            Step::EnableController,
            Step::StartPll,
        ] + repeated(Step::AwaitPllLock, pll) + after_lock() + repeated(Step::AwaitConfigured, cfg),
{
    lemma_lock_polls(pll, cfg);
    let rest = repeated(Step::AwaitPllLock, pll) + after_lock() + repeated(Step::AwaitConfigured, cfg);
    assert(steps_carried_out(Step::StartPll, pll, cfg) == seq![Step::StartPll] + rest);
    assert(steps_carried_out(Step::EnableController, pll, cfg) =~= seq![
        Step::EnableController,
        Step::StartPll,
    ] + rest);
    assert(steps_carried_out(Step::EnableRegulator, pll, cfg) =~= seq![
        Step::EnableRegulator,
        Step::EnableController,
        Step::StartPll,
    ] + rest);
}

} // verus!
