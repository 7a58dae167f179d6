//! Properties of whole runs of the firmware, over any sequence of outcomes.
use vstd::prelude::*;
use crate::config::Config;
use crate::firmware::{Action, Event, Fault, Firmware, Phase};
use crate::rate::{rad_of, DEG_TO_RAD_NANO};
use crate::sensor::Sample;

verus! {

/// The state reached and the actions asked for when the outcomes `events`
/// are fed to `fw` one after the other.
pub open spec fn run(fw: Firmware, events: Seq<Event>) -> (Firmware, Seq<Action>)
    decreases events.len(),
{
    if events.len() == 0 {
        (fw, Seq::empty())
    } else {
        let (mid, acts) = run(fw, events.drop_last());
        let (next, a) = mid.spec_next(events.last());
        (next, acts.push(a))
    }
}

/// The outcomes that a working device gives to one turn of the sampling
/// loop: the sample read, then the emission and the pause done.
pub open spec fn turn_events(sample: Sample) -> Seq<Event> {
    seq![Event::Reading(sample), Event::Done, Event::Done]
}

/// The outcomes of one loop turn for each sample in order.
pub open spec fn loop_events(samples: Seq<Sample>) -> Seq<Event>
    decreases samples.len(),
{
    if samples.len() == 0 {
        Seq::empty()
    } else {
        loop_events(samples.drop_last()) + turn_events(samples.last())
    }
}

/// The actions of one loop turn: emit the sample's rate, pause for the
/// configured delay, read again.
pub open spec fn turn_actions(config: Config, sample: Sample) -> Seq<Action> {
    seq![
        Action::Emit(rad_of(sample.spec_axis(config.axis) as int) as i64),
        Action::Wait(config.delay_ms),
        Action::ReadGyro,
    ]
}

/// The actions of one loop turn for each sample in order.
pub open spec fn loop_actions(config: Config, samples: Seq<Sample>) -> Seq<Action>
    decreases samples.len(),
{
    if samples.len() == 0 {
        Seq::empty()
    } else {
        loop_actions(config, samples.drop_last()) + turn_actions(config, samples.last())
    }
}

/// How many of the actions are emissions.
pub open spec fn emissions(acts: Seq<Action>) -> nat
    decreases acts.len(),
{
    if acts.len() == 0 {
        0
    } else {
        emissions(acts.drop_last()) + if acts.last() is Emit { 1nat } else { 0nat }
    }
}

/// The time spent blocking in the actions, in milliseconds.
pub open spec fn waited_ms(acts: Seq<Action>) -> int
    decreases acts.len(),
{
    if acts.len() == 0 {
        0
    } else {
        waited_ms(acts.drop_last()) + match acts.last() {
            Action::Wait(ms) => ms as int,
            _ => 0,
        }
    }
}

/// Feeding two runs of outcomes one after the other is one run of both.
pub proof fn lemma_run_append(fw: Firmware, a: Seq<Event>, b: Seq<Event>)
    ensures
        run(fw, a + b).0 == run(run(fw, a).0, b).0,
        run(fw, a + b).1 == run(fw, a).1 + run(run(fw, a).0, b).1,
    decreases b.len(),
{
    if b.len() == 0 {
        assert(a + b =~= a);
        assert(run(fw, a).1 + Seq::<Action>::empty() =~= run(fw, a).1);
    } else {
        lemma_run_append(fw, a, b.drop_last());
        assert((a + b).drop_last() =~= a + b.drop_last());
        assert((a + b).last() == b.last());
        let mid = run(fw, a).0;
        let (m2, acts2) = run(mid, b.drop_last());
        let (_, x) = m2.spec_next(b.last());
        assert(run(fw, a).1 + acts2.push(x) =~= (run(fw, a).1 + acts2).push(x));
    }
}

/// Counting emissions and waits distributes over concatenation.
pub proof fn lemma_counts_append(a: Seq<Action>, b: Seq<Action>)
    ensures
        emissions(a + b) == emissions(a) + emissions(b),
        waited_ms(a + b) == waited_ms(a) + waited_ms(b),
    decreases b.len(),
{
    if b.len() == 0 {
        assert(a + b =~= a);
    } else {
        lemma_counts_append(a, b.drop_last());
        assert((a + b).drop_last() =~= a + b.drop_last());
    }
}

/// Counting emissions and waits in a single action.
pub proof fn lemma_counts_one(a: Action)
    ensures
        emissions(seq![a]) == (if a is Emit { 1nat } else { 0nat }),
        waited_ms(seq![a]) == match a {
            Action::Wait(ms) => ms as int,
            _ => 0,
        },
{
    assert(seq![a].drop_last() =~= Seq::<Action>::empty());
    assert(emissions(Seq::<Action>::empty()) == 0);
    assert(waited_ms(Seq::<Action>::empty()) == 0);
}

/// A halted firmware stays halted whatever it is told, and asks for
/// nothing but the same halt.
pub proof fn lemma_halted_stays(fw: Firmware, fault: Fault, events: Seq<Event>)
    requires
        fw.phase == Phase::Halted(fault),
    ensures
        run(fw, events).0 == fw,
        run(fw, events).1 == Seq::new(events.len(), |i: int| Action::Halt(fault)),
        emissions(run(fw, events).1) == 0,
    decreases events.len(),
{
    if events.len() > 0 {
        lemma_halted_stays(fw, fault, events.drop_last());
        assert(run(fw, events).1 =~= Seq::new(events.len(), |i: int| Action::Halt(fault)));
        assert(run(fw, events).1.drop_last() =~= run(fw, events.drop_last()).1);
    }
}

/// One more outcome extends the run by one step.
pub proof fn lemma_run_push(fw: Firmware, events: Seq<Event>, e: Event)
    ensures
        run(fw, events.push(e)).0 == run(fw, events).0.spec_next(e).0,
        run(fw, events.push(e)).1 == run(fw, events).1.push(run(fw, events).0.spec_next(e).1),
{
    assert(events.push(e).drop_last() =~= events);
}

/// Boot with a device that answers and accepts the range: after the bus,
/// the handshake and the range write succeed, the firmware reads its first
/// sample from a device whose recorded range is the configured one.
pub proof fn lemma_boot_success(config: Config)
    ensures
        Firmware::spec_start(config).1 == Action::OpenBus(config.bus_khz),
        ({
            let (fw, acts) = run(
                Firmware::spec_start(config).0,
                seq![Event::Done, Event::Done, Event::Done],
            );
            &&& fw.phase == Phase::Reading
            &&& fw.range == Some(config.range)
            &&& fw.config == config
            &&& fw.wf()
            &&& acts == seq![
                Action::Handshake(config.address),
                Action::SetRange(config.range),
                Action::ReadGyro,
            ]
        }),
{
    let fw0 = Firmware::spec_start(config).0;
    let e0 = Seq::<Event>::empty();
    lemma_run_push(fw0, e0, Event::Done);
    lemma_run_push(fw0, e0.push(Event::Done), Event::Done);
    lemma_run_push(fw0, e0.push(Event::Done).push(Event::Done), Event::Done);
    assert(e0.push(Event::Done).push(Event::Done).push(Event::Done)
        =~= seq![Event::Done, Event::Done, Event::Done]);
    assert(run(fw0, seq![Event::Done, Event::Done, Event::Done]).1 =~= seq![
        Action::Handshake(config.address),
        Action::SetRange(config.range),
        Action::ReadGyro,
    ]);
}

/// Boot with a device that never answers the handshake: the firmware halts
/// with `DeviceNotFound` and, whatever comes after, never reads a sample nor
/// emits anything.
pub proof fn lemma_boot_failure(config: Config, later: Seq<Event>)
    ensures
        ({
            let (fw, acts) = run(
                Firmware::spec_start(config).0,
                seq![Event::Done, Event::Failed] + later,
            );
            &&& fw.phase == Phase::Halted(Fault::DeviceNotFound)
            &&& acts[1] == Action::Halt(Fault::DeviceNotFound)
            &&& forall|i: int| 0 <= i < acts.len() ==> !(#[trigger] acts[i] is ReadGyro)
            &&& emissions(acts) == 0
        }),
{
    let fw0 = Firmware::spec_start(config).0;
    let e0 = Seq::<Event>::empty();
    lemma_run_push(fw0, e0, Event::Done);
    lemma_run_push(fw0, e0.push(Event::Done), Event::Failed);
    let boot = seq![Event::Done, Event::Failed];
    assert(e0.push(Event::Done).push(Event::Failed) =~= boot);
    let halted = run(fw0, boot).0;
    let acts0 = run(fw0, boot).1;
    assert(acts0 =~= seq![
        Action::Handshake(config.address),
        Action::Halt(Fault::DeviceNotFound),
    ]);
    lemma_run_append(fw0, boot, later);
    lemma_halted_stays(halted, Fault::DeviceNotFound, later);
    let acts = run(fw0, boot + later).1;
    lemma_counts_append(acts0, run(halted, later).1);
    assert(acts0.drop_last() =~= seq![Action::Handshake(config.address)]);
    assert(acts0.drop_last().drop_last() =~= Seq::<Action>::empty());
    assert(emissions(acts0.drop_last().drop_last()) == 0);
    assert(emissions(acts0.drop_last()) == 0);
    assert(emissions(acts0) == 0);
    assert(acts[1] == acts0[1]);
    assert forall|i: int| 0 <= i < acts.len() implies !(#[trigger] acts[i] is ReadGyro) by {
        if i >= 2 {
            assert(acts[i] == run(halted, later).1[i - 2]);
        }
    }
}

/// A rate converted from any sample axis fits the emitted integer.
pub proof fn lemma_rad_fits(micro_deg: i32)
    ensures
        i64::MIN <= rad_of(micro_deg as int) <= i64::MAX,
        rad_of(micro_deg as int) as i64 as int == rad_of(micro_deg as int),
{
    let d = micro_deg as int;
    assert(-2147483648 * 17453293 <= d * 17453293 <= 2147483647 * 17453293) by (nonlinear_arith)
        requires
            -2147483648 <= d <= 2147483647,
    ;
}

/// One turn of the loop from a firmware waiting on a read.
pub proof fn lemma_turn(fw: Firmware, sample: Sample)
    requires
        fw.phase == Phase::Reading,
    ensures
        run(fw, turn_events(sample)).0 == (Firmware { failures: 0, ..fw }),
        run(fw, turn_events(sample)).1 == turn_actions(fw.config, sample),
{
    let e0 = Seq::<Event>::empty();
    lemma_run_push(fw, e0, Event::Reading(sample));
    lemma_run_push(fw, e0.push(Event::Reading(sample)), Event::Done);
    lemma_run_push(fw, e0.push(Event::Reading(sample)).push(Event::Done), Event::Done);
    assert(e0.push(Event::Reading(sample)).push(Event::Done).push(Event::Done)
        =~= turn_events(sample));
    assert(run(fw, turn_events(sample)).1 =~= turn_actions(fw.config, sample));
}

/// Turns of the loop over several samples, from a firmware waiting on a read.
pub proof fn lemma_turns(fw: Firmware, samples: Seq<Sample>)
    requires
        fw.phase == Phase::Reading,
    ensures
        run(fw, loop_events(samples)).0 == (if samples.len() == 0 {
            fw
        } else {
            Firmware { failures: 0, ..fw }
        }),
        run(fw, loop_events(samples)).1 == loop_actions(fw.config, samples),
    decreases samples.len(),
{
    if samples.len() > 0 {
        let init = samples.drop_last();
        lemma_turns(fw, init);
        lemma_run_append(fw, loop_events(init), turn_events(samples.last()));
        lemma_turn(run(fw, loop_events(init)).0, samples.last());
    }
}

/// Where each action of the loop stands: turn `k` is emission, pause, read.
pub proof fn lemma_loop_actions_shape(config: Config, samples: Seq<Sample>)
    ensures
        loop_actions(config, samples).len() == 3 * samples.len(),
        forall|k: int|
            0 <= k < samples.len() ==> {
                &&& #[trigger] loop_actions(config, samples)[3 * k] == Action::Emit(
                    rad_of(samples[k].spec_axis(config.axis) as int) as i64,
                )
                &&& loop_actions(config, samples)[3 * k + 1] == Action::Wait(config.delay_ms)
                &&& loop_actions(config, samples)[3 * k + 2] == Action::ReadGyro
            },
    decreases samples.len(),
{
    if samples.len() > 0 {
        let init = samples.drop_last();
        lemma_loop_actions_shape(config, init);
        let acts = loop_actions(config, samples);
        assert forall|k: int| 0 <= k < samples.len() implies {
            &&& #[trigger] acts[3 * k] == Action::Emit(
                rad_of(samples[k].spec_axis(config.axis) as int) as i64,
            )
            &&& acts[3 * k + 1] == Action::Wait(config.delay_ms)
            &&& acts[3 * k + 2] == Action::ReadGyro
        } by {
            if k < init.len() {
                assert(init[k] == samples[k]);
            }
        }
    }
}

/// The first `k` turns of the loop are the loop over the first `k` samples.
pub proof fn lemma_loop_actions_prefix(config: Config, samples: Seq<Sample>, k: int)
    requires
        0 <= k <= samples.len(),
    ensures
        loop_actions(config, samples).subrange(0, 3 * k) == loop_actions(
            config,
            samples.subrange(0, k),
        ),
{
    let pre = samples.subrange(0, k);
    lemma_loop_actions_shape(config, samples);
    lemma_loop_actions_shape(config, pre);
    let a = loop_actions(config, samples).subrange(0, 3 * k);
    let b = loop_actions(config, pre);
    assert forall|i: int| 0 <= i < 3 * k implies a[i] == b[i] by {
        let j = i / 3;
        assert(pre[j] == samples[j]);
        assert(i == 3 * j || i == 3 * j + 1 || i == 3 * j + 2);
        assert(loop_actions(config, samples)[3 * j] == b[3 * j]);
    }
    assert(a =~= b);
}

/// One emission and one pause of the configured delay in each turn.
pub proof fn lemma_loop_counts(config: Config, samples: Seq<Sample>)
    ensures
        emissions(loop_actions(config, samples)) == samples.len(),
        waited_ms(loop_actions(config, samples)) == samples.len() * config.delay_ms,
    decreases samples.len(),
{
    if samples.len() > 0 {
        let init = samples.drop_last();
        lemma_loop_counts(config, init);
        let t = turn_actions(config, samples.last());
        lemma_counts_append(loop_actions(config, init), t);
        lemma_counts_one(t[0]);
        lemma_counts_one(t[1]);
        lemma_counts_one(t[2]);
        lemma_counts_append(seq![t[0]], seq![t[1]]);
        lemma_counts_append(seq![t[0]] + seq![t[1]], seq![t[2]]);
        assert(seq![t[0]] + seq![t[1]] + seq![t[2]] =~= t);
        assert(samples.len() * config.delay_ms == init.len() * config.delay_ms
            + config.delay_ms) by (nonlinear_arith)
            requires
                samples.len() == init.len() + 1,
        ;
    }
}

/// The sampling loop keeps its cadence: fed one good sample per turn, the
/// firmware emits each sample's rate, then pauses for the configured delay,
/// then reads again, and nothing else. The `k`-th emission thus comes after
/// exactly `k` pauses of the configured delay, and after `n` samples it has
/// emitted `n` values and paused `n` times that delay in all.
pub proof fn lemma_cadence(fw: Firmware, samples: Seq<Sample>)
    requires
        fw.phase == Phase::Reading,
    ensures
        ({
            let acts = run(fw, loop_events(samples)).1;
            &&& acts == loop_actions(fw.config, samples)
            &&& run(fw, loop_events(samples)).0.phase == Phase::Reading
            &&& emissions(acts) == samples.len()
            &&& waited_ms(acts) == samples.len() * fw.config.delay_ms
            &&& forall|k: int|
                0 <= k < samples.len() ==> {
                    &&& #[trigger] acts[3 * k] is Emit
                    &&& acts[3 * k + 1] == Action::Wait(fw.config.delay_ms)
                    &&& acts[3 * k + 2] == Action::ReadGyro
                    &&& emissions(acts.subrange(0, 3 * k)) == k
                    &&& waited_ms(acts.subrange(0, 3 * k)) == k * fw.config.delay_ms
                }
        }),
{
    lemma_turns(fw, samples);
    lemma_loop_actions_shape(fw.config, samples);
    lemma_loop_counts(fw.config, samples);
    let acts = loop_actions(fw.config, samples);
    assert forall|k: int| 0 <= k < samples.len() implies {
        &&& #[trigger] acts[3 * k] is Emit
        &&& acts[3 * k + 1] == Action::Wait(fw.config.delay_ms)
        &&& acts[3 * k + 2] == Action::ReadGyro
        &&& emissions(acts.subrange(0, 3 * k)) == k
        &&& waited_ms(acts.subrange(0, 3 * k)) == k * fw.config.delay_ms
    } by {
        lemma_loop_actions_prefix(fw.config, samples, k);
        lemma_loop_counts(fw.config, samples.subrange(0, k));
    }
}

/// Only the configured axis is observable: the emitted value is that axis's
/// rate in radians, so two samples that agree on it give the same emission
/// whatever their other axes hold, and a change of that axis changes the
/// emission in proportion, by the conversion constant.
pub proof fn lemma_axis_selection(fw: Firmware, a: Sample, b: Sample)
    requires
        fw.phase == Phase::Reading,
    ensures
        fw.spec_next(Event::Reading(a)).1 == Action::Emit(
            rad_of(a.spec_axis(fw.config.axis) as int) as i64,
        ),
        a.spec_axis(fw.config.axis) == b.spec_axis(fw.config.axis) ==> fw.spec_next(
            Event::Reading(a),
        ) == fw.spec_next(Event::Reading(b)),
        (fw.spec_next(Event::Reading(b)).1->Emit_0 as int) - (fw.spec_next(
            Event::Reading(a),
        ).1->Emit_0 as int) == (b.spec_axis(fw.config.axis) - a.spec_axis(fw.config.axis))
            * DEG_TO_RAD_NANO,
{
    let va = a.spec_axis(fw.config.axis);
    let vb = b.spec_axis(fw.config.axis);
    lemma_rad_fits(va);
    lemma_rad_fits(vb);
    assert(rad_of(vb as int) - rad_of(va as int) == (vb - va) * DEG_TO_RAD_NANO) by (nonlinear_arith);
}

/// With no retries allowed, a read that fails after `n` good turns halts the
/// firmware at once: it has emitted exactly the `n` values of those turns,
/// and whatever it is told afterwards it emits nothing more.
pub proof fn lemma_read_failure(fw: Firmware, samples: Seq<Sample>, later: Seq<Event>)
    requires
        fw.phase == Phase::Reading,
        fw.wf(),
        fw.config.read_retries == 0,
    ensures
        ({
            let (end, acts) = run(fw, loop_events(samples).push(Event::Failed) + later);
            &&& end.phase == Phase::Halted(Fault::Read)
            &&& acts == loop_actions(fw.config, samples).push(Action::Halt(Fault::Read))
                + Seq::new(later.len(), |i: int| Action::Halt(Fault::Read))
            &&& emissions(acts) == samples.len()
        }),
{
    let good = loop_events(samples);
    lemma_turns(fw, samples);
    lemma_run_push(fw, good, Event::Failed);
    let halted = run(fw, good.push(Event::Failed)).0;
    let acts0 = run(fw, good.push(Event::Failed)).1;
    lemma_run_append(fw, good.push(Event::Failed), later);
    lemma_halted_stays(halted, Fault::Read, later);
    lemma_loop_counts(fw.config, samples);
    let tail = seq![Action::Halt(Fault::Read)];
    assert(acts0 =~= loop_actions(fw.config, samples) + tail);
    lemma_counts_one(Action::Halt(Fault::Read));
    lemma_counts_append(loop_actions(fw.config, samples), tail);
    lemma_counts_append(acts0, run(halted, later).1);
}

/// Every state reached from a well-formed one is well-formed and keeps its
/// configuration: once the device is configured, its recorded range is the
/// configured one for as long as the firmware samples.
pub proof fn lemma_range_fixed(fw: Firmware, events: Seq<Event>)
    requires
        fw.wf(),
    ensures
        run(fw, events).0.wf(),
        run(fw, events).0.config == fw.config,
        run(fw, events).0.phase.is_sampling() ==> run(fw, events).0.range == Some(fw.config.range),
    decreases events.len(),
{
    if events.len() > 0 {
        lemma_range_fixed(fw, events.drop_last());
    }
}

/// The outcomes of `k` failed reads, each retried after its pause.
pub open spec fn retry_events(k: nat) -> Seq<Event>
    decreases k,
{
    if k == 0 {
        Seq::empty()
    } else {
        retry_events((k - 1) as nat) + seq![Event::Failed, Event::Done]
    }
}

/// The actions of `k` retried reads: pause for the retry delay, read again.
pub open spec fn retry_actions(config: Config, k: nat) -> Seq<Action>
    decreases k,
{
    if k == 0 {
        Seq::empty()
    } else {
        retry_actions(config, (k - 1) as nat) + seq![
            Action::Wait(config.retry_delay_ms),
            Action::ReadGyro,
        ]
    }
}

/// Failed reads are retried while the retry bound allows: each failure
/// pauses for the retry delay and reads again, with nothing emitted.
pub proof fn lemma_retries(fw: Firmware, k: nat)
    requires
        fw.phase == Phase::Reading,
        fw.failures + k <= fw.config.read_retries,
    ensures
        run(fw, retry_events(k)).0 == (Firmware { failures: (fw.failures + k) as u32, ..fw }),
        run(fw, retry_events(k)).1 == retry_actions(fw.config, k),
    decreases k,
{
    if k > 0 {
        let k1 = (k - 1) as nat;
        lemma_retries(fw, k1);
        let mid = run(fw, retry_events(k1)).0;
        let e0 = Seq::<Event>::empty();
        lemma_run_push(mid, e0, Event::Failed);
        lemma_run_push(mid, e0.push(Event::Failed), Event::Done);
        assert(e0.push(Event::Failed).push(Event::Done) =~= seq![Event::Failed, Event::Done]);
        lemma_run_append(fw, retry_events(k1), seq![Event::Failed, Event::Done]);
        assert(run(mid, seq![Event::Failed, Event::Done]).1 =~= seq![
            Action::Wait(fw.config.retry_delay_ms),
            Action::ReadGyro,
        ]);
    }
}

/// The retry bound is exact: after as many failed reads in a row as the
/// bound allows, each retried, one more failure halts the firmware with a
/// read fault, while a good sample instead is emitted and clears the count.
pub proof fn lemma_retry_bound(fw: Firmware, sample: Sample)
    requires
        fw.phase == Phase::Reading,
        fw.failures == 0,
    ensures
        ({
            let tried = run(fw, retry_events(fw.config.read_retries as nat)).0;
            &&& tried.phase == Phase::Reading
            &&& tried.spec_next(Event::Failed) == tried.halt(Fault::Read)
            &&& tried.spec_next(Event::Reading(sample)).0.failures == 0
            &&& tried.spec_next(Event::Reading(sample)).1 is Emit
        }),
{
    lemma_retries(fw, fw.config.read_retries as nat);
}

} // verus!
