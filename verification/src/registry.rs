//! The registry: the devices attached to one link channel, and the pass that
//! polls them one after the other, skipping those that are busy.

use vstd::prelude::*;
use crate::device::{
    idle_cycle, identifier_spec, is_canonical_identifier, poll_spec, Device, DeviceView,
    PollCycle, PollCycleView, PollOutcome, PollPhase, PollStep,
};
use crate::link::{LinkAction, LinkChannel, LinkChannelView, LinkEvent};

verus! {

/// A place in the registry: a device and whether someone holds it.
struct Slot {
    device: Device,
    busy: bool,
}

/// Mathematical content of a `Slot`.
pub struct SlotView {
    pub device: DeviceView,
    pub busy: bool,
}

/// The devices that share one link channel, in the order of attachment.
pub struct DeviceRegistry {
    channel: LinkChannel,
    slots: Vec<Slot>,
}

/// Mathematical content of a `DeviceRegistry`.
pub struct RegistryView {
    pub channel: LinkChannelView,
    pub slots: Seq<SlotView>,
}

/// How the poll of one device ended.
#[derive(Clone, Copy, Debug, PartialEq, Eq, Structural)]
pub struct DeviceReport {
    /// Place of the device in the registry.
    pub index: usize,
    pub outcome: PollOutcome,
}

/// What a step of a pass asks for.
#[derive(Clone, Copy, Debug, PartialEq, Eq, Structural)]
pub enum PassStep {
    /// Perform `action` on the link, on behalf of the device at `device`,
    /// and report the answer.
    Perform { device: usize, action: LinkAction },
    /// Every device has been visited.
    Done,
}

/// One pass over the registry: the device being polled, its cycle, and the
/// outcomes so far.
pub struct PollPass {
    cursor: usize,
    cycle: PollCycle,
    report: Vec<DeviceReport>,
}

/// Mathematical content of a `PollPass`.
pub struct PollPassView {
    pub cursor: nat,
    pub cycle: PollCycleView,
    pub report: Seq<DeviceReport>,
}

/// Registry and pass after a step, and what the step asks for.
pub struct PassTransition {
    pub registry: RegistryView,
    pub pass: PollPassView,
    pub step: PassStep,
}

impl View for Slot {
    type V = SlotView;

    closed spec fn view(&self) -> SlotView {
        SlotView { device: self.device@, busy: self.busy }
    }
}

impl View for DeviceRegistry {
    type V = RegistryView;

    closed spec fn view(&self) -> RegistryView {
        RegistryView {
            channel: self.channel@,
            slots: Seq::new(self.slots@.len(), |i: int| self.slots@[i]@),
        }
    }
}

impl View for PollPass {
    type V = PollPassView;

    closed spec fn view(&self) -> PollPassView {
        PollPassView { cursor: self.cursor as nat, cycle: self.cycle@, report: self.report@ }
    }
}

/// The first place at or after `from` whose device nobody holds, or the
/// number of places if there is none.
pub open spec fn first_free(slots: Seq<SlotView>, from: nat) -> nat
    decreases slots.len() - from,
{
    if from >= slots.len() {
        slots.len()
    } else if !slots[from as int].busy {
        from
    } else {
        first_free(slots, from + 1)
    }
}

/// The place of the device that `pass` is polling, if it is polling one.
pub open spec fn polling(registry: RegistryView, pass: PollPassView) -> Option<nat> {
    if pass.cursor < registry.slots.len() && pass.cycle.phase != PollPhase::Idle {
        Some(pass.cursor)
    } else {
        None
    }
}

/// The pass moves on to the first free device at or after `from`: it takes
/// hold of the device and asks for the link to be reconfigured. If there is
/// no such device the pass is done.
pub open spec fn enter_spec(registry: RegistryView, report: Seq<DeviceReport>, from: nat)
    -> PassTransition {
    let next = first_free(registry.slots, from);
    if next < registry.slots.len() {
        PassTransition {
            registry: RegistryView {
                slots: registry.slots.update(
                    next as int,
                    SlotView { busy: true, ..registry.slots[next as int] },
                ),
                ..registry
            },
            pass: PollPassView {
                cursor: next,
                cycle: PollCycleView { phase: PollPhase::Configuring, request: Seq::empty() },
                report,
            },
            step: PassStep::Perform {
                device: next as usize,
                action: LinkAction::Reconfigure { open_port: !registry.channel.open },
            },
        }
    } else {
        PassTransition {
            registry,
            pass: PollPassView { cursor: registry.slots.len(), cycle: idle_cycle(), report },
            step: PassStep::Done,
        }
    }
}

/// The beginning of a pass over `registry`.
pub open spec fn poll_all_spec(registry: RegistryView) -> PassTransition {
    enter_spec(registry, Seq::empty(), 0)
}

/// One step of a pass: the answer `event` goes to the cycle of the device
/// being polled. When that cycle ends, the device is let go, its outcome is
/// added to the report, and the pass moves on to the next free device. A pass
/// that polls no device is done and stays so.
pub open spec fn advance_spec(registry: RegistryView, pass: PollPassView, event: LinkEvent)
    -> PassTransition {
    if polling(registry, pass) is None {
        PassTransition { registry, pass, step: PassStep::Done }
    } else {
        let slot = registry.slots[pass.cursor as int];
        let moved = poll_spec(slot.device, registry.channel, pass.cycle, event);
        match moved.step {
            PollStep::Perform(action) => PassTransition {
                registry: RegistryView {
                    channel: moved.channel,
                    slots: registry.slots.update(
                        pass.cursor as int,
                        SlotView { device: moved.device, ..slot },
                    ),
                },
                pass: PollPassView { cycle: moved.cycle, ..pass },
                step: PassStep::Perform { device: pass.cursor as usize, action },
            },
            PollStep::Finished(outcome) => enter_spec(
                RegistryView {
                    channel: moved.channel,
                    slots: registry.slots.update(
                        pass.cursor as int,
                        SlotView { device: moved.device, busy: false },
                    ),
                },
                pass.report.push(DeviceReport { index: pass.cursor as usize, outcome }),
                pass.cursor + 1,
            ),
        }
    }
}

/// Registry and pass after a run of steps, and what each step asked for.
pub struct PassRun {
    pub registry: RegistryView,
    pub pass: PollPassView,
    pub steps: Seq<PassStep>,
}

/// The run in which `events` are answered to a pass one after the other.
pub open spec fn run_spec(registry: RegistryView, pass: PollPassView, events: Seq<LinkEvent>)
    -> PassRun
    decreases events.len(),
{
    if events.len() == 0 {
        PassRun { registry, pass, steps: Seq::empty() }
    } else {
        let before = run_spec(registry, pass, events.drop_last());
        let moved = advance_spec(before.registry, before.pass, events.last());
        PassRun {
            registry: moved.registry,
            pass: moved.pass,
            steps: before.steps.push(moved.step),
        }
    }
}

/// Whether `step` asks for an action on behalf of the device at `index`.
pub open spec fn acts_for(step: PassStep, index: int) -> bool {
    step matches PassStep::Perform { device, .. } && device == index
}

/// Whether `report` holds an outcome for the device at `index`.
pub open spec fn reports_on(report: Seq<DeviceReport>, index: int) -> bool {
    exists|k: int| 0 <= k < report.len() && (#[trigger] report[k]).index == index
}

/// An upper bound on the answers that a pass still takes before it is done:
/// three for each device from the one being polled on, less those that the
/// cycle in flight has taken already.
pub open spec fn answers_left(registry: RegistryView, pass: PollPassView) -> nat {
    match polling(registry, pass) {
        None => 0,
        Some(cursor) => {
            let taken: nat = match pass.cycle.phase {
                PollPhase::Sending => 1,
                PollPhase::AwaitingResponse => 2,
                _ => 0,
            };
            (3 * (registry.slots.len() - cursor) - taken) as nat
        },
    }
}

/// A registry can hold no more devices than a machine word can count.
pub open spec fn registry_fits(registry: RegistryView) -> bool {
    registry.slots.len() <= usize::MAX
}

impl PollPass {
    /// Place of the device being polled, or the number of places once the
    /// pass is done.
    pub fn cursor(&self) -> (cursor: usize)
        ensures
            cursor == self@.cursor,
    {
        self.cursor
    }

    /// Phase of the cycle of the device being polled.
    pub fn phase(&self) -> (phase: PollPhase)
        ensures
            phase == self@.cycle.phase,
    {
        self.cycle.phase()
    }

    /// The request frame in flight, which `LinkAction::Send` is to write.
    pub fn request(&self) -> (request: &Vec<u8>)
        ensures
            request@ == self@.cycle.request,
    {
        self.cycle.request()
    }

    /// Outcomes of the devices polled so far, in the order of polling.
    pub fn report(&self) -> (report: &Vec<DeviceReport>)
        ensures
            report@ == self@.report,
    {
        &self.report
    }
}

impl DeviceRegistry {
    /// A registry for `channel`, with no device attached yet.
    pub fn new(channel: LinkChannel) -> (registry: DeviceRegistry)
        ensures
            registry@ == (RegistryView { channel: channel@, slots: Seq::empty() }),
    {
        let registry = DeviceRegistry { channel, slots: Vec::new() };
        assert(registry@.slots =~= Seq::empty());
        registry
    }

    /// Attaches `device` behind those already attached and returns its place.
    /// Addresses are not compared: keeping them distinct is up to the caller.
    pub fn attach(&mut self, device: Device) -> (index: usize)
        ensures
            index == old(self)@.slots.len(),
            final(self)@ == (RegistryView {
                slots: old(self)@.slots.push(SlotView { device: device@, busy: false }),
                ..old(self)@
            }),
    {
        let index = self.slots.len();
        self.slots.push(Slot { device, busy: false });
        assert(self@.slots =~= old(self)@.slots.push(SlotView { device: device@, busy: false }));
        index
    }

    /// Number of devices attached.
    pub fn len(&self) -> (len: usize)
        ensures
            len == self@.slots.len(),
    {
        self.slots.len()
    }

    /// The link channel that the devices share.
    pub fn channel(&self) -> (channel: &LinkChannel)
        ensures
            channel@ == self@.channel,
    {
        &self.channel
    }

    /// The device at `index`, if there is one.
    pub fn device(&self, index: usize) -> (device: Option<&Device>)
        ensures
            device is Some == (index < self@.slots.len()),
            device matches Some(d) ==> d@ == self@.slots[index as int].device,
    {
        if index < self.slots.len() {
            Some(&self.slots[index].device)
        } else {
            None
        }
    }

    /// Whether the device at `index` is held, by a pass or by anyone else.
    /// No device is held where there is none.
    pub fn is_busy(&self, index: usize) -> (busy: bool)
        ensures
            busy == (index < self@.slots.len() && self@.slots[index as int].busy),
    {
        index < self.slots.len() && self.slots[index].busy
    }

    /// Takes hold of the device at `index` unless it is held already or does
    /// not exist. Never waits.
    pub fn try_acquire(&mut self, index: usize) -> (acquired: bool)
        ensures
            acquired == (index < old(self)@.slots.len() && !old(self)@.slots[index as int].busy),
            acquired ==> final(self)@ == (RegistryView {
                slots: old(self)@.slots.update(
                    index as int,
                    SlotView { busy: true, ..old(self)@.slots[index as int] },
                ),
                ..old(self)@
            }),
            !acquired ==> final(self)@ == old(self)@,
    {
        if index < self.slots.len() && !self.slots[index].busy {
            self.slots[index].busy = true;
            assert(self@.slots =~= old(self)@.slots.update(
                index as int,
                SlotView { busy: true, ..old(self)@.slots[index as int] },
            ));
            true
        } else {
            assert(self@.slots =~= old(self)@.slots);
            false
        }
    }

    /// Lets go of the device at `index`, if there is one.
    pub fn release(&mut self, index: usize)
        ensures
            index < old(self)@.slots.len() ==> final(self)@ == (RegistryView {
                slots: old(self)@.slots.update(
                    index as int,
                    SlotView { busy: false, ..old(self)@.slots[index as int] },
                ),
                ..old(self)@
            }),
            index >= old(self)@.slots.len() ==> final(self)@ == old(self)@,
    {
        if index < self.slots.len() {
            self.slots[index].busy = false;
            assert(self@.slots =~= old(self)@.slots.update(
                index as int,
                SlotView { busy: false, ..old(self)@.slots[index as int] },
            ));
        } else {
            assert(self@.slots =~= old(self)@.slots);
        }
    }

    /// The identifier of the device at `index`, generated and cached on the
    /// first call; `None` if there is no such device.
    pub fn device_identifier(&mut self, index: usize) -> (identifier: Option<String>)
        ensures
            identifier is Some == (index < old(self)@.slots.len()),
            identifier is None ==> final(self)@ == old(self)@,
            identifier matches Some(text) ==> {
                let slot = old(self)@.slots[index as int];
                let (device, handed) = identifier_spec(slot.device, text@);
                &&& handed == text@
                &&& slot.device.identifier is None ==> is_canonical_identifier(text@)
                &&& final(self)@ == (RegistryView {
                    slots: old(self)@.slots.update(index as int, SlotView { device, ..slot }),
                    ..old(self)@
                })
            },
    {
        if index < self.slots.len() {
            let text = self.slots[index].device.identifier();
            assert(self@.slots =~= old(self)@.slots.update(
                index as int,
                SlotView {
                    device: identifier_spec(old(self)@.slots[index as int].device, text@).0,
                    ..old(self)@.slots[index as int]
                },
            ));
            Some(text)
        } else {
            assert(self@.slots =~= old(self)@.slots);
            None
        }
    }

    /// The first place at or after `from` whose device nobody holds.
    fn next_free(&self, from: usize) -> (next: usize)
        requires
            from <= self@.slots.len(),
        ensures
            next == first_free(self@.slots, from as nat),
            from <= next <= self@.slots.len(),
    {
        let mut next: usize = from;
        while next < self.slots.len() && self.slots[next].busy
            invariant
                from <= next <= self.slots@.len(),
                self@.slots.len() == self.slots@.len(),
                first_free(self@.slots, from as nat) == first_free(self@.slots, next as nat),
            decreases self.slots@.len() - next,
        {
            assert(self@.slots[next as int].busy == self.slots@[next as int].busy);
            next = next + 1;
        }
        assert(next < self.slots@.len() ==> self@.slots[next as int].busy
            == self.slots@[next as int].busy);
        next
    }

    /// Moves `pass` on to the first free device at or after `from`.
    fn enter(&mut self, pass: &mut PollPass, from: usize) -> (step: PassStep)
        requires
            from <= old(self)@.slots.len(),
        ensures
            (PassTransition { registry: final(self)@, pass: final(pass)@, step }) == enter_spec(
                old(self)@,
                old(pass)@.report,
                from as nat,
            ),
    {
        let next = self.next_free(from);
        pass.cursor = next;
        if next < self.slots.len() {
            self.slots[next].busy = true;
            let begun = self.slots[next].device.poll(&self.channel);
            pass.cycle = begun.0;
            assert(self@.slots =~= old(self)@.slots.update(
                next as int,
                SlotView { busy: true, ..old(self)@.slots[next as int] },
            ));
            PassStep::Perform { device: next, action: begun.1 }
        } else {
            pass.cycle = PollCycle::new();
            assert(self@.slots =~= old(self)@.slots);
            PassStep::Done
        }
    }

    /// Begins a pass over the devices in the order of attachment. A device
    /// that is held when the pass reaches it is skipped, not waited for.
    pub fn poll_all(&mut self) -> (begun: (PollPass, PassStep))
        ensures
            (PassTransition { registry: final(self)@, pass: begun.0@, step: begun.1 })
                == poll_all_spec(old(self)@),
    {
        let mut pass = PollPass { cursor: 0, cycle: PollCycle::new(), report: Vec::new() };
        let step = self.enter(&mut pass, 0);
        (pass, step)
    }

    /// Takes the answer `event` to the action in flight and moves the pass on.
    pub fn advance_poll_all(&mut self, pass: &mut PollPass, event: LinkEvent) -> (step: PassStep)
        ensures
            (PassTransition { registry: final(self)@, pass: final(pass)@, step }) == advance_spec(
                old(self)@,
                old(pass)@,
                event,
            ),
    {
        let index = pass.cursor;
        let idle = match pass.cycle.phase() {
            PollPhase::Idle => true,
            _ => false,
        };
        if index >= self.slots.len() || idle {
            assert(self@.slots =~= old(self)@.slots);
            return PassStep::Done;
        }
        let ghost slot = old(self)@.slots[index as int];
        let ghost moved = poll_spec(slot.device, old(self)@.channel, old(pass)@.cycle, event);
        match self.slots[index].device.advance_poll(&mut self.channel, &mut pass.cycle, event) {
            PollStep::Perform(action) => {
                assert(self@.slots =~= old(self)@.slots.update(
                    index as int,
                    SlotView { device: moved.device, ..slot },
                ));
                PassStep::Perform { device: index, action }
            },
            PollStep::Finished(outcome) => {
                self.slots[index].busy = false;
                pass.report.push(DeviceReport { index, outcome });
                assert(self@.slots =~= old(self)@.slots.update(
                    index as int,
                    SlotView { device: moved.device, busy: false },
                ));
                self.enter(pass, index + 1)
            },
        }
    }
}

/// `first_free` gives a place at or after `from` that nobody holds, or the
/// number of places.
proof fn lemma_first_free(slots: Seq<SlotView>, from: nat)
    requires
        from <= slots.len(),
    ensures
        from <= first_free(slots, from) <= slots.len(),
        first_free(slots, from) < slots.len() ==> !slots[first_free(slots, from) as int].busy,
    decreases slots.len() - from,
{
    if from < slots.len() && slots[from as int].busy {
        lemma_first_free(slots, from + 1);
    }
}

/// Moving on never picks a device that is held, and leaves it as it is.
proof fn lemma_enter_skips_busy(
    registry: RegistryView,
    report: Seq<DeviceReport>,
    from: nat,
    index: int,
)
    requires
        registry_fits(registry),
        from <= registry.slots.len(),
        0 <= index < registry.slots.len(),
        registry.slots[index].busy,
    ensures
        ({
            let moved = enter_spec(registry, report, from);
            &&& moved.registry.slots.len() == registry.slots.len()
            &&& moved.registry.slots[index] == registry.slots[index]
            &&& moved.pass.cursor != index
            &&& moved.pass.report == report
            &&& !acts_for(moved.step, index)
        }),
{
    lemma_first_free(registry.slots, from);
}

/// A step of a pass that is not polling the held device at `index` leaves
/// that device as it is, asks nothing on its behalf, reports nothing on it,
/// and ends not polling it.
proof fn lemma_advance_skips_busy(
    registry: RegistryView,
    pass: PollPassView,
    event: LinkEvent,
    index: int,
)
    requires
        registry_fits(registry),
        0 <= index < registry.slots.len(),
        registry.slots[index].busy,
        polling(registry, pass) != Some(index as nat),
        !reports_on(pass.report, index),
    ensures
        ({
            let moved = advance_spec(registry, pass, event);
            &&& moved.registry.slots.len() == registry.slots.len()
            &&& moved.registry.slots[index] == registry.slots[index]
            &&& polling(moved.registry, moved.pass) != Some(index as nat)
            &&& !reports_on(moved.pass.report, index)
            &&& !acts_for(moved.step, index)
        }),
{
    if polling(registry, pass) is Some {
        let slot = registry.slots[pass.cursor as int];
        let stepped = poll_spec(slot.device, registry.channel, pass.cycle, event);
        match stepped.step {
            PollStep::Perform(action) => {},
            PollStep::Finished(outcome) => {
                let let_go = RegistryView {
                    channel: stepped.channel,
                    slots: registry.slots.update(
                        pass.cursor as int,
                        SlotView { device: stepped.device, busy: false },
                    ),
                };
                let report = pass.report.push(
                    DeviceReport { index: pass.cursor as usize, outcome },
                );
                assert forall|k: int| 0 <= k < report.len() implies (#[trigger] report[k]).index
                    != index by {
                    if k < pass.report.len() {
                        assert(report[k] == pass.report[k]);
                    }
                }
                lemma_enter_skips_busy(let_go, report, pass.cursor + 1, index);
            },
        }
    }
}

/// Every answer brings a pass that is not done closer to its end, and none
/// changes the number of devices.
proof fn lemma_advance_makes_progress(registry: RegistryView, pass: PollPassView, event: LinkEvent)
    ensures
        ({
            let moved = advance_spec(registry, pass, event);
            &&& moved.registry.slots.len() == registry.slots.len()
            &&& polling(registry, pass) is Some ==> answers_left(moved.registry, moved.pass)
                < answers_left(registry, pass)
            &&& polling(registry, pass) is None ==> moved.step == PassStep::Done && polling(
                moved.registry,
                moved.pass,
            ) is None
        }),
{
    if polling(registry, pass) is Some {
        let slot = registry.slots[pass.cursor as int];
        let stepped = poll_spec(slot.device, registry.channel, pass.cycle, event);
        match stepped.step {
            PollStep::Perform(action) => {},
            PollStep::Finished(outcome) => {
                let let_go = RegistryView {
                    channel: stepped.channel,
                    slots: registry.slots.update(
                        pass.cursor as int,
                        SlotView { device: stepped.device, busy: false },
                    ),
                };
                lemma_first_free(let_go.slots, pass.cursor + 1);
            },
        }
    }
}

/// After a run of answers to a pass that has just begun, either the pass
/// polls no device or the answers taken and those still to come are at most
/// three per device.
proof fn lemma_run_makes_progress(registry: RegistryView, events: Seq<LinkEvent>)
    ensures
        ({
            let begun = poll_all_spec(registry);
            let run = run_spec(begun.registry, begun.pass, events);
            &&& run.registry.slots.len() == registry.slots.len()
            &&& polling(run.registry, run.pass) is Some ==> answers_left(run.registry, run.pass)
                + events.len() <= 3 * registry.slots.len()
            &&& polling(run.registry, run.pass) is None && events.len() > 0 ==> run.steps.last()
                == PassStep::Done
        }),
    decreases events.len(),
{
    let begun = poll_all_spec(registry);
    lemma_first_free(registry.slots, 0);
    if events.len() > 0 {
        lemma_run_makes_progress(registry, events.drop_last());
        let before = run_spec(begun.registry, begun.pass, events.drop_last());
        lemma_advance_makes_progress(before.registry, before.pass, events.last());
        let moved = advance_spec(before.registry, before.pass, events.last());
        if polling(moved.registry, moved.pass) is None && polling(before.registry, before.pass)
            is Some {
            let slot = before.registry.slots[before.pass.cursor as int];
            let stepped = poll_spec(
                slot.device,
                before.registry.channel,
                before.pass.cycle,
                events.last(),
            );
            match stepped.step {
                PollStep::Perform(action) => {},
                PollStep::Finished(outcome) => {},
            }
        }
    }
}

/// A pass never stalls: however the transport answers, once three answers
/// per attached device have been taken the pass polls no device any more and
/// the step that took the last of them said that the pass is done. No answer
/// changes the number of devices.
pub proof fn law_pass_ends(registry: RegistryView, events: Seq<LinkEvent>)
    requires
        events.len() >= 3 * registry.slots.len(),
        events.len() > 0,
    ensures
        ({
            let begun = poll_all_spec(registry);
            let run = run_spec(begun.registry, begun.pass, events);
            &&& run.registry.slots.len() == registry.slots.len()
            &&& polling(run.registry, run.pass) is None
            &&& run.steps.last() == PassStep::Done
        }),
{
    lemma_run_makes_progress(registry, events);
}

/// Skip if busy. A device that is held when a pass begins, and stays held, is
/// left exactly as it was however the pass proceeds: its last reading and
/// everything else about it are unchanged, no step of the pass asks for an
/// action on the link on its behalf, and the report holds no outcome for it.
pub proof fn law_busy_device_is_skipped(
    registry: RegistryView,
    index: int,
    events: Seq<LinkEvent>,
)
    requires
        registry_fits(registry),
        0 <= index < registry.slots.len(),
        registry.slots[index].busy,
    ensures
        ({
            let begun = poll_all_spec(registry);
            let run = run_spec(begun.registry, begun.pass, events);
            &&& !acts_for(begun.step, index)
            &&& forall|k: int| 0 <= k < run.steps.len() ==> !acts_for(#[trigger] run.steps[k], index)
            &&& run.registry.slots.len() == registry.slots.len()
            &&& run.registry.slots[index] == registry.slots[index]
            &&& polling(run.registry, run.pass) != Some(index as nat)
            &&& !reports_on(run.pass.report, index)
        }),
    decreases events.len(),
{
    let begun = poll_all_spec(registry);
    lemma_enter_skips_busy(registry, Seq::empty(), 0, index);
    if events.len() > 0 {
        law_busy_device_is_skipped(registry, index, events.drop_last());
        let before = run_spec(begun.registry, begun.pass, events.drop_last());
        lemma_advance_skips_busy(before.registry, before.pass, events.last(), index);
    }
}

} // verus!
