//! What holds of every evaluation and of every tick of a model.

use crate::dynamic::VerilatorValue;
use crate::model::{
    lemma_readable_before_monotonic, one_of, readable_before, zero_of, TickPhase,
    VerilatedModelView,
};
use crate::native::NativeCallView;
use vstd::prelude::*;

verus! {

/// How many of `calls` evaluate the instance.
pub open spec fn evaluations(calls: Seq<NativeCallView>) -> nat
    decreases calls.len(),
{
    if calls.len() == 0 {
        0
    } else {
        evaluations(calls.drop_last()) + if calls.last() is Evaluate {
            1nat
        } else {
            0nat
        }
    }
}

/// The calls that drive ports are nothing but calls that drive ports, no
/// more of them than there are ports.
pub proof fn lemma_pin_calls(model: VerilatedModelView, n: int)
    requires
        0 <= n <= model.ports.len(),
    ensures
        model.pin_calls(n).len() <= n,
        forall|j: int| 0 <= j < model.pin_calls(n).len() ==> (#[trigger] model.pin_calls(n)[j]) is Pin,
        evaluations(model.pin_calls(n)) == 0,
    decreases n,
{
    if n > 0 {
        lemma_pin_calls(model, n - 1);
        if model.ports[n - 1].direction.writable() {
            assert(model.pin_calls(n).drop_last() =~= model.pin_calls(n - 1));
        }
    }
}

/// The calls that observe ports are nothing but calls that observe ports,
/// one for each port that can be observed.
pub proof fn lemma_read_calls(model: VerilatedModelView, n: int)
    requires
        0 <= n <= model.ports.len(),
    ensures
        model.read_calls(n).len() == readable_before(model.ports, n),
        forall|j: int|
            0 <= j < model.read_calls(n).len() ==> (#[trigger] model.read_calls(n)[j]) is Read,
        evaluations(model.read_calls(n)) == 0,
    decreases n,
{
    if n > 0 {
        lemma_read_calls(model, n - 1);
        if model.ports[n - 1].direction.readable() {
            assert(model.read_calls(n).drop_last() =~= model.read_calls(n - 1));
        }
    }
}

/// Calls that follow do not change how many evaluations came before.
pub proof fn lemma_evaluations_add(first: Seq<NativeCallView>, second: Seq<NativeCallView>)
    ensures
        evaluations(first + second) == evaluations(first) + evaluations(second),
    decreases second.len(),
{
    if second.len() == 0 {
        assert(first + second =~= first);
    } else {
        assert((first + second).drop_last() =~= first + second.drop_last());
        lemma_evaluations_add(first, second.drop_last());
    }
}

/// An evaluation is ordered: first come the calls that drive ports, then
/// the one call that evaluates the instance, then the calls that observe
/// ports. This holds in whatever order the ports were declared.
pub proof fn lemma_eval_order(model: VerilatedModelView)
    ensures
        ({
            let calls = model.eval_calls();
            let k = model.pin_calls(model.ports.len() as int).len() as int;
            &&& calls.len() == k + 1 + readable_before(model.ports, model.ports.len() as int)
            &&& calls[k] == model.evaluate_call()
            &&& forall|j: int| 0 <= j < k ==> (#[trigger] calls[j]) is Pin
            &&& forall|j: int| k < j < calls.len() ==> (#[trigger] calls[j]) is Read
            &&& evaluations(calls) == 1
        }),
{
    let n = model.ports.len() as int;
    let pins = model.pin_calls(n);
    let reads = model.read_calls(n);
    lemma_pin_calls(model, n);
    lemma_read_calls(model, n);
    let calls = model.eval_calls();
    let k = pins.len() as int;
    assert forall|j: int| 0 <= j < k implies (#[trigger] calls[j]) is Pin by {
        assert(calls[j] == pins[j]);
    }
    assert forall|j: int| k < j < calls.len() implies (#[trigger] calls[j]) is Read by {
        assert(calls[j] == reads[j - k - 1]);
    }
    lemma_evaluations_add(pins.push(model.evaluate_call()), reads);
    assert(pins.push(model.evaluate_call()).drop_last() =~= pins);
}

/// How many of the first `n` ports are driven by an evaluation.
pub open spec fn writable_before(model: VerilatedModelView, n: int) -> int {
    model.pin_calls(n).len() as int
}

/// Every port is served by an evaluation: a port that can be driven has
/// its value handed over before the instance is evaluated, and a port
/// that can be observed is read after.
pub proof fn lemma_every_port_served(model: VerilatedModelView, i: int)
    requires
        0 <= i < model.ports.len(),
    ensures
        ({
            let calls = model.eval_calls();
            let k = model.pin_calls(model.ports.len() as int).len() as int;
            &&& model.ports[i].direction.writable() ==> writable_before(model, i) < k
                && calls[writable_before(model, i)] == model.pin_call(i)
            &&& model.ports[i].direction.readable() ==> k + 1 + readable_before(model.ports, i)
                < calls.len() && calls[k + 1 + readable_before(model.ports, i)] == model.read_call(
                i,
            )
        }),
{
    let n = model.ports.len() as int;
    lemma_read_calls(model, n);
    lemma_pin_calls(model, n);
    lemma_pin_prefix(model, i + 1, n);
    lemma_read_prefix(model, i + 1, n);
    lemma_read_calls(model, i);
    lemma_read_calls(model, i + 1);
    lemma_pin_calls(model, i);
    lemma_readable_before_monotonic(model.ports, i + 1, n);
    let calls = model.eval_calls();
    let k = model.pin_calls(n).len() as int;
    if model.ports[i].direction.writable() {
        assert(model.pin_calls(i + 1)[writable_before(model, i)] == model.pin_call(i));
        assert(calls[writable_before(model, i)] == model.pin_calls(n)[writable_before(model, i)]);
    }
    if model.ports[i].direction.readable() {
        assert(model.read_calls(i + 1)[readable_before(model.ports, i)] == model.read_call(i));
        assert(calls[k + 1 + readable_before(model.ports, i)] == model.read_calls(
            n,
        )[readable_before(model.ports, i)]);
    }
}

proof fn lemma_pin_prefix(model: VerilatedModelView, m: int, n: int)
    requires
        0 <= m <= n <= model.ports.len(),
    ensures
        model.pin_calls(m).len() <= model.pin_calls(n).len(),
        forall|j: int|
            0 <= j < model.pin_calls(m).len() ==> model.pin_calls(n)[j] == (
            #[trigger] model.pin_calls(m)[j]),
    decreases n - m,
{
    if m < n {
        lemma_pin_prefix(model, m, n - 1);
    }
}

proof fn lemma_read_prefix(model: VerilatedModelView, m: int, n: int)
    requires
        0 <= m <= n <= model.ports.len(),
    ensures
        model.read_calls(m).len() <= model.read_calls(n).len(),
        forall|j: int|
            0 <= j < model.read_calls(m).len() ==> model.read_calls(n)[j] == (
            #[trigger] model.read_calls(m)[j]),
    decreases n - m,
{
    if m < n {
        lemma_read_prefix(model, m, n - 1);
    }
}

/// A tick of a model with a clock: the clock is high during the first
/// evaluation and low during the second, exactly two evaluations take
/// place, and in the end the clock is at zero again. `first` and `second`
/// are what the reads of the two evaluations gave.
pub proof fn lemma_tick(
    model: VerilatedModelView,
    first: Seq<VerilatorValue>,
    second: Seq<VerilatorValue>,
)
    requires
        model.wf(),
        model.clock is Some,
        model.answered_by(first),
        model.answered_by(second),
    ensures
        ({
            let c = model.clock->0;
            let bucket = model.ports[c].bucket();
            let high = model.tick_step(TickPhase::Start, Seq::empty());
            let low = high->Ok_0.0.tick_step(TickPhase::High, first);
            let done = low->Ok_0.0.tick_step(TickPhase::Low, second);
            &&& high is Ok && low is Ok && done is Ok
            &&& high->Ok_0.1 == TickPhase::High && low->Ok_0.1 == TickPhase::Low && done->Ok_0.1
                == TickPhase::Finished
            &&& high->Ok_0.0.values[c] == one_of(bucket)
            &&& low->Ok_0.0.values[c] == zero_of(bucket)
            &&& done->Ok_0.0.values[c] == zero_of(bucket)
            &&& high->Ok_0.2 == high->Ok_0.0.eval_calls()
            &&& low->Ok_0.2 == low->Ok_0.0.eval_calls()
            &&& evaluations(high->Ok_0.2) + evaluations(low->Ok_0.2) + evaluations(done->Ok_0.2)
                == 2
        }),
{
    let c = model.clock->0;
    let bucket = model.ports[c].bucket();
    let high = model.tick_step(TickPhase::Start, Seq::empty())->Ok_0;
    assert(high.0.ports == model.ports);
    assert(high.0.answered_by(first));
    let low = high.0.tick_step(TickPhase::High, first)->Ok_0;
    assert(low.0.ports == model.ports);
    assert(low.0.answered_by(second));
    let done = low.0.tick_step(TickPhase::Low, second)->Ok_0;
    assert(!model.ports[c].direction.readable());
    lemma_eval_order(high.0);
    lemma_eval_order(low.0);
}

} // verus!
