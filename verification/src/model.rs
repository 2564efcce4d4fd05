//! Models whose ports are known when the host program is written. The
//! model keeps one value per port. An evaluation first hands the values of
//! all inputs to the native instance, then evaluates it, then takes the
//! values of all outputs back.

use crate::dynamic::{
    DynamicVerilatedModelError, DynamicVerilatedModelErrorView, VerilatorValue,
};
use crate::error::{RuntimeError, RuntimeErrorView};
use crate::native::{NativeCall, NativeCallView};
use crate::port::{
    duplicate_ports, PortDescriptor, PortDescriptorView, PortDirection, WidthBucket,
};
use crate::signature::{lemma_signature_accepted, signature_error, validate_signature};
use crate::symbols::{
    constructor_symbol, destructor_symbol, evaluator_symbol, open_trace_symbol, pin_symbol,
    read_symbol, spec_constructor_symbol, spec_destructor_symbol, spec_evaluator_symbol,
    spec_open_trace_symbol, spec_pin_symbol,
    spec_read_symbol, spec_vcd_close_symbol, spec_vcd_dump_symbol, spec_vcd_flush_symbol,
    spec_vcd_open_next_symbol, vcd_close_symbol, vcd_dump_symbol, vcd_flush_symbol,
    vcd_open_next_symbol,
};
use crate::text::{push_text, text_eq};
use vstd::prelude::*;
use vstd::string::*;

verus! {

/// What a [`VerilatedModel`] holds.
pub ghost struct VerilatedModelView {
    /// The name of the module.
    pub name: Seq<char>,
    /// The path of the module's definition.
    pub source_path: Seq<char>,
    /// The module's interface.
    pub ports: Seq<PortDescriptorView>,
    /// The value of each port, as the host sees it.
    pub values: Seq<VerilatorValue>,
    /// The place of the clock among the ports, if one is designated.
    pub clock: Option<int>,
    /// The handle of the native instance.
    pub model: usize,
    /// The place of the library in the runtime's arena.
    pub library: usize,
    /// Whether the model was built with tracing.
    pub tracing: bool,
    /// Whether a trace was opened on the model.
    pub opened_vcd: bool,
}

/// The zero of each port's integer type.
pub open spec fn zero_values(ports: Seq<PortDescriptorView>) -> Seq<VerilatorValue> {
    Seq::new(ports.len(), |i: int| zero_of(ports[i].bucket()))
}

/// The zero of an integer type.
pub open spec fn zero_of(bucket: WidthBucket) -> VerilatorValue {
    match bucket {
        WidthBucket::U8 => VerilatorValue::CData(0),
        WidthBucket::U16 => VerilatorValue::SData(0),
        WidthBucket::U32 => VerilatorValue::IData(0),
        WidthBucket::U64 => VerilatorValue::QData(0),
    }
}

/// The one of an integer type.
pub open spec fn one_of(bucket: WidthBucket) -> VerilatorValue {
    match bucket {
        WidthBucket::U8 => VerilatorValue::CData(1),
        WidthBucket::U16 => VerilatorValue::SData(1),
        WidthBucket::U32 => VerilatorValue::IData(1),
        WidthBucket::U64 => VerilatorValue::QData(1),
    }
}

/// The last place at which `ports` holds an input of the name `name`, if
/// there is one.
pub open spec fn clock_index(ports: Seq<PortDescriptorView>, name: Seq<char>) -> Option<int>
    decreases ports.len(),
{
    if ports.len() == 0 {
        None
    } else if ports.last().name == name && ports.last().direction == PortDirection::Input {
        Some(ports.len() - 1)
    } else {
        clock_index(ports.drop_last(), name)
    }
}

/// The last place at which `ports` holds a port of the name `name`, if
/// there is one.
pub open spec fn port_index(ports: Seq<PortDescriptorView>, name: Seq<char>) -> Option<int>
    decreases ports.len(),
{
    if ports.len() == 0 {
        None
    } else if ports.last().name == name {
        Some(ports.len() - 1)
    } else {
        port_index(ports.drop_last(), name)
    }
}

/// How many of the first `n` ports can be read.
pub open spec fn readable_before(ports: Seq<PortDescriptorView>, n: int) -> int
    decreases n,
{
    if n <= 0 {
        0
    } else {
        readable_before(ports, n - 1) + if ports[n - 1].direction.readable() {
            1int
        } else {
            0int
        }
    }
}

impl VerilatedModelView {
    /// Each port is valid and its value is of its integer type; the clock,
    /// if there is one, is an input.
    pub open spec fn wf(self) -> bool {
        &&& self.values.len() == self.ports.len()
        &&& forall|i: int| 0 <= i < self.ports.len() ==> (#[trigger] self.ports[i]).valid()
        &&& forall|i: int|
            0 <= i < self.ports.len() ==> (#[trigger] self.values[i]).spec_bucket()
                == self.ports[i].bucket()
        &&& self.clock matches Some(c) ==> 0 <= c < self.ports.len() && self.ports[c].direction
            == PortDirection::Input
    }

    /// The call that drives the port at `i` with its value.
    pub open spec fn pin_call(self, i: int) -> NativeCallView {
        NativeCallView::Pin {
            symbol: spec_pin_symbol(self.name, self.ports[i].name),
            handle: self.model,
            value: self.values[i],
        }
    }

    /// The call that observes the port at `i`.
    pub open spec fn read_call(self, i: int) -> NativeCallView {
        NativeCallView::Read {
            symbol: spec_read_symbol(self.name, self.ports[i].name),
            handle: self.model,
            bucket: self.ports[i].bucket(),
        }
    }

    /// The call that evaluates the instance.
    pub open spec fn evaluate_call(self) -> NativeCallView {
        NativeCallView::Evaluate { symbol: spec_evaluator_symbol(self.name), handle: self.model }
    }

    /// The calls that drive those of the first `n` ports that can be
    /// driven, in the order of the ports.
    pub open spec fn pin_calls(self, n: int) -> Seq<NativeCallView>
        decreases n,
    {
        if n <= 0 {
            Seq::empty()
        } else if self.ports[n - 1].direction.writable() {
            self.pin_calls(n - 1).push(self.pin_call(n - 1))
        } else {
            self.pin_calls(n - 1)
        }
    }

    /// The calls that observe those of the first `n` ports that can be
    /// observed, in the order of the ports.
    pub open spec fn read_calls(self, n: int) -> Seq<NativeCallView>
        decreases n,
    {
        if n <= 0 {
            Seq::empty()
        } else if self.ports[n - 1].direction.readable() {
            self.read_calls(n - 1).push(self.read_call(n - 1))
        } else {
            self.read_calls(n - 1)
        }
    }

    /// The calls of one evaluation: every port that can be driven is
    /// driven, the instance is evaluated, every port that can be observed
    /// is observed.
    pub open spec fn eval_calls(self) -> Seq<NativeCallView> {
        self.pin_calls(self.ports.len() as int).push(self.evaluate_call()) + self.read_calls(
            self.ports.len() as int,
        )
    }

    /// Whether `replies` answers the reads of one evaluation: one value
    /// for each port that can be observed, of that port's integer type.
    pub open spec fn answered_by(self, replies: Seq<VerilatorValue>) -> bool {
        &&& replies.len() == readable_before(self.ports, self.ports.len() as int)
        &&& forall|i: int|
            0 <= i < self.ports.len() && (#[trigger] self.ports[i]).direction.readable()
                ==> replies[readable_before(self.ports, i)].spec_bucket() == self.ports[i].bucket()
    }

    /// The model after an evaluation that was answered by `replies`: each
    /// port that can be observed has the value that was read for it, and
    /// every other port keeps its value.
    pub open spec fn absorbed(self, replies: Seq<VerilatorValue>) -> VerilatedModelView {
        VerilatedModelView {
            values: Seq::new(
                self.ports.len(),
                |i: int|
                    if self.ports[i].direction.readable() {
                        replies[readable_before(self.ports, i)]
                    } else {
                        self.values[i]
                    },
            ),
            ..self
        }
    }

    /// The model with `value` at port `i`.
    pub open spec fn with_value(self, i: int, value: VerilatorValue) -> VerilatedModelView {
        VerilatedModelView { values: self.values.update(i, value), ..self }
    }

    /// The value that a read of `port` by name gives, or why there is
    /// none.
    pub open spec fn read_outcome(self, port: Seq<char>) -> Result<
        VerilatorValue,
        DynamicVerilatedModelErrorView,
    > {
        match port_index(self.ports, port) {
            None => Err(
                DynamicVerilatedModelErrorView::NoSuchPort {
                    top_module: self.name,
                    port,
                    source: None,
                },
            ),
            Some(i) => if !self.ports[i].direction.readable() {
                Err(
                    DynamicVerilatedModelErrorView::InvalidPortDirection {
                        top_module: self.name,
                        port,
                        direction: self.ports[i].direction,
                        attempted_direction: PortDirection::Output,
                    },
                )
            } else {
                Ok(self.values[i])
            },
        }
    }

    /// Why `port` cannot be given `value` by name, if it cannot.
    pub open spec fn pin_error(self, port: Seq<char>, value: VerilatorValue) -> Option<
        DynamicVerilatedModelErrorView,
    > {
        match port_index(self.ports, port) {
            None => Some(
                DynamicVerilatedModelErrorView::NoSuchPort {
                    top_module: self.name,
                    port,
                    source: None,
                },
            ),
            Some(i) => if !self.ports[i].direction.writable() {
                Some(
                    DynamicVerilatedModelErrorView::InvalidPortDirection {
                        top_module: self.name,
                        port,
                        direction: self.ports[i].direction,
                        attempted_direction: PortDirection::Input,
                    },
                )
            } else if self.ports[i].bucket() != value.spec_bucket() {
                Some(
                    DynamicVerilatedModelErrorView::InvalidPortWidth {
                        top_module: self.name,
                        port,
                        width: self.ports[i].width(),
                        attempted_lower: value.spec_bucket().spec_lower(),
                        attempted_higher: value.spec_bucket().spec_bits(),
                    },
                )
            } else {
                None
            },
        }
    }
}

/// A hardware model with a fixed list of ports. It stands for one native
/// instance in one loaded library, and keeps a value for each port.
pub struct VerilatedModel {
    name: String,
    source_path: String,
    ports: Vec<PortDescriptor>,
    values: Vec<VerilatorValue>,
    clock: Option<usize>,
    model: usize,
    library: usize,
    tracing: bool,
    opened_vcd: bool,
}

impl View for VerilatedModel {
    type V = VerilatedModelView;

    closed spec fn view(&self) -> VerilatedModelView {
        VerilatedModelView {
            name: self.name@,
            source_path: self.source_path@,
            ports: self.ports.deep_view(),
            values: self.values@,
            clock: match self.clock {
                Some(c) => Some(c as int),
                None => None,
            },
            model: self.model,
            library: self.library,
            tracing: self.tracing,
            opened_vcd: self.opened_vcd,
        }
    }
}

impl VerilatedModel {
    /// Makes the model of the native instance `model` in the library at
    /// place `library`. The signature is validated first. Every port
    /// starts at zero. The clock is the input called `clock_port`, if one
    /// is named and there is such an input.
    pub fn new(
        name: &str,
        source_path: &str,
        ports: &Vec<PortDescriptor>,
        clock_port: Option<&str>,
        model: usize,
        library: usize,
        tracing_enabled: bool,
    ) -> (outcome: Result<Self, RuntimeError>)
        ensures
            outcome is Ok <==> signature_error(name@, ports.deep_view()) is None,
            outcome matches Err(e) ==> Some(e@) == signature_error(name@, ports.deep_view()),
            outcome matches Ok(made) ==> made@.wf() && made@ == (VerilatedModelView {
                name: name@,
                source_path: source_path@,
                ports: ports.deep_view(),
                values: zero_values(ports.deep_view()),
                clock: match clock_port {
                    Some(clock) => clock_index(ports.deep_view(), clock@),
                    None => None,
                },
                model,
                library,
                tracing: tracing_enabled,
                opened_vcd: false,
            }),
    {
        match validate_signature(name, ports) {
            Err(e) => {
                return Err(e);
            },
            Ok(()) => {},
        }
        let ghost views = ports.deep_view();
        proof {
            lemma_signature_accepted(name@, views);
        }
        let mut values: Vec<VerilatorValue> = Vec::new();
        let mut i: usize = 0;
        while i < ports.len()
            invariant
                i <= ports.len(),
                views == ports.deep_view(),
                forall|j: int| 0 <= j < views.len() ==> (#[trigger] views[j]).valid(),
                values@ =~= zero_values(views).take(i as int),
            decreases ports.len() - i,
        {
            assert(views[i as int] == ports[i as int]@);
            assert(views[i as int].valid());
            match ports[i].bucket() {
                Some(bucket) => {
                    let zero = VerilatorValue::zero(bucket);
                    assert(zero == zero_of(bucket));
                    values.push(zero);
                },
                None => {
                    assert(false);
                },
            }
            i = i + 1;
        }
        assert(zero_values(views).take(ports.len() as int) =~= zero_values(views));
        let clock = match clock_port {
            Some(clock) => find_clock(ports, clock),
            None => None,
        };
        proof {
            if clock_port is Some {
                lemma_clock_index(views, clock_port->0@);
            }
        }
        let copy = duplicate_ports(ports);
        Ok(
            VerilatedModel {
                name: name.to_owned(),
                source_path: source_path.to_owned(),
                ports: copy,
                values,
                clock,
                model,
                library,
                tracing: tracing_enabled,
                opened_vcd: false,
            },
        )
    }

    /// The source-level name of the module.
    pub fn name(&self) -> (name: &str)
        ensures
            name@ == self@.name,
    {
        self.name.as_str()
    }

    /// The path of the module's definition.
    pub fn source_path(&self) -> (path: &str)
        ensures
            path@ == self@.source_path,
    {
        self.source_path.as_str()
    }

    /// The module's interface.
    pub fn ports(&self) -> (ports: &Vec<PortDescriptor>)
        ensures
            ports.deep_view() == self@.ports,
    {
        &self.ports
    }

    /// The handle of the native instance.
    pub fn model(&self) -> (handle: usize)
        ensures
            handle == self@.model,
    {
        self.model
    }

    /// The place of the model's library in the runtime's arena.
    pub fn library(&self) -> (library: usize)
        ensures
            library == self@.library,
    {
        self.library
    }

    /// The value of the port at place `index`, if there is such a place.
    pub fn value(&self, index: usize) -> (value: Option<VerilatorValue>)
        ensures
            value == if index < self@.values.len() {
                Some(self@.values[index as int])
            } else {
                None
            },
    {
        if index < self.values.len() {
            Some(self.values[index])
        } else {
            None
        }
    }
}

/// The place of the clock is a place of an input of that name.
pub proof fn lemma_clock_index(ports: Seq<PortDescriptorView>, name: Seq<char>)
    ensures
        clock_index(ports, name) matches Some(c) ==> 0 <= c < ports.len() && ports[c].name == name
            && ports[c].direction == PortDirection::Input,
    decreases ports.len(),
{
    if ports.len() > 0 {
        lemma_clock_index(ports.drop_last(), name);
        if clock_index(ports.drop_last(), name) is Some {
            let c = clock_index(ports.drop_last(), name)->0;
            assert(ports.drop_last()[c] == ports[c]);
        }
    }
}

/// The place of a port of a name is a place of a port of that name.
pub proof fn lemma_port_index(ports: Seq<PortDescriptorView>, name: Seq<char>)
    ensures
        port_index(ports, name) matches Some(i) ==> 0 <= i < ports.len() && ports[i].name == name,
        port_index(ports, name) is None ==> forall|i: int|
            0 <= i < ports.len() ==> (#[trigger] ports[i]).name != name,
    decreases ports.len(),
{
    if ports.len() > 0 {
        lemma_port_index(ports.drop_last(), name);
        if port_index(ports.drop_last(), name) is Some {
            let i = port_index(ports.drop_last(), name)->0;
            assert(ports.drop_last()[i] == ports[i]);
        }
        if port_index(ports, name) is None {
            assert forall|i: int| 0 <= i < ports.len() implies (#[trigger] ports[i]).name
                != name by {
                if i < ports.len() - 1 {
                    assert(ports.drop_last()[i] == ports[i]);
                }
            }
        }
    }
}

fn find_clock(ports: &Vec<PortDescriptor>, name: &str) -> (found: Option<usize>)
    ensures
        clock_index(ports.deep_view(), name@) == match found {
            Some(c) => Some(c as int),
            None => None,
        },
{
    let ghost views = ports.deep_view();
    let mut i: usize = ports.len();
    assert(views.take(i as int) =~= views);
    while i > 0
        invariant
            i <= ports.len(),
            views == ports.deep_view(),
            clock_index(views, name@) == clock_index(views.take(i as int), name@),
        decreases i,
    {
        i = i - 1;
        proof {
            assert(views.take(i + 1).drop_last() =~= views.take(i as int));
            assert(views.take(i + 1).last() == ports[i as int]@);
        }
        let is_input = match ports[i].direction {
            PortDirection::Input => true,
            _ => false,
        };
        if is_input && text_eq(ports[i].name.as_str(), name) {
            return Some(i);
        }
    }
    None
}

fn find_port_index(ports: &Vec<PortDescriptor>, name: &str) -> (found: Option<usize>)
    ensures
        port_index(ports.deep_view(), name@) == match found {
            Some(i) => Some(i as int),
            None => None,
        },
{
    let ghost views = ports.deep_view();
    let mut i: usize = ports.len();
    assert(views.take(i as int) =~= views);
    while i > 0
        invariant
            i <= ports.len(),
            views == ports.deep_view(),
            port_index(views, name@) == port_index(views.take(i as int), name@),
        decreases i,
    {
        i = i - 1;
        proof {
            assert(views.take(i + 1).drop_last() =~= views.take(i as int));
            assert(views.take(i + 1).last() == ports[i as int]@);
        }
        if text_eq(ports[i].name.as_str(), name) {
            return Some(i);
        }
    }
    None
}

/// How far a tick has come.
#[derive(Debug, Clone, Copy, PartialEq, Eq, Structural)]
pub enum TickPhase {
    /// Nothing was asked yet.
    Start,
    /// The evaluation with the clock high is under way.
    High,
    /// The evaluation with the clock low is under way.
    Low,
    /// The tick is over.
    Finished,
}

/// The value of the port at `j` after an evaluation that was answered by
/// `replies`: what was read for it, if it is read at all, else what it
/// held.
pub open spec fn absorbed_at(
    ports: Seq<PortDescriptorView>,
    values: Seq<VerilatorValue>,
    replies: Seq<VerilatorValue>,
    j: int,
) -> VerilatorValue {
    if ports[j].direction.readable() {
        replies[readable_before(ports, j)]
    } else {
        values[j]
    }
}

/// Whether the port at `j` is answered by `replies`, if it is read at all.
pub open spec fn reply_fits(
    ports: Seq<PortDescriptorView>,
    replies: Seq<VerilatorValue>,
    j: int,
) -> bool {
    ports[j].direction.readable() ==> replies[readable_before(ports, j)].spec_bucket()
        == ports[j].bucket()
}

impl VerilatedModelView {
    /// One step of a tick: the clock is driven high and the model
    /// evaluated, then the clock is driven low and the model evaluated
    /// again. `replies` answers the reads of the evaluation before.
    pub open spec fn tick_step(self, phase: TickPhase, replies: Seq<VerilatorValue>) -> Result<
        (VerilatedModelView, TickPhase, Seq<NativeCallView>),
        RuntimeErrorView,
    > {
        match self.clock {
            None => Err(RuntimeErrorView::NoClockPort { module: self.name }),
            Some(c) => match phase {
                TickPhase::Start => {
                    let high = self.with_value(c, one_of(self.ports[c].bucket()));
                    Ok((high, TickPhase::High, high.eval_calls()))
                },
                TickPhase::High => if self.answered_by(replies) {
                    let low = self.absorbed(replies).with_value(
                        c,
                        zero_of(self.ports[c].bucket()),
                    );
                    Ok((low, TickPhase::Low, low.eval_calls()))
                } else {
                    Err(RuntimeErrorView::UnexpectedEvent)
                },
                TickPhase::Low => if self.answered_by(replies) {
                    Ok((self.absorbed(replies), TickPhase::Finished, Seq::empty()))
                } else {
                    Err(RuntimeErrorView::UnexpectedEvent)
                },
                TickPhase::Finished => Err(RuntimeErrorView::UnexpectedEvent),
            },
        }
    }
}

/// Among more ports there are no fewer that can be read.
pub proof fn lemma_readable_before_monotonic(ports: Seq<PortDescriptorView>, i: int, j: int)
    requires
        0 <= i <= j,
    ensures
        0 <= readable_before(ports, i) <= readable_before(ports, j),
        readable_before(ports, i) <= i,
    decreases j,
{
    if i < j {
        lemma_readable_before_monotonic(ports, i, j - 1);
    } else if i > 0 {
        lemma_readable_before_monotonic(ports, i - 1, i - 1);
    }
}

impl VerilatedModel {
    fn pins(&self) -> (calls: Vec<NativeCall>)
        requires
            self@.wf(),
        ensures
            calls.deep_view() == self@.pin_calls(self@.ports.len() as int),
    {
        let ghost views = self.ports.deep_view();
        let mut calls: Vec<NativeCall> = Vec::new();
        assert(calls.deep_view() =~= Seq::<NativeCallView>::empty());
        let mut i: usize = 0;
        while i < self.ports.len()
            invariant
                i <= self.ports.len(),
                self@.wf(),
                views == self.ports.deep_view(),
                calls.deep_view() == self@.pin_calls(i as int),
            decreases self.ports.len() - i,
        {
            assert(views[i as int] == self.ports[i as int]@);
            if self.ports[i].direction.is_writable() {
                let call = NativeCall::Pin {
                    symbol: pin_symbol(self.name.as_str(), self.ports[i].name.as_str()),
                    handle: self.model,
                    value: self.values[i],
                };
                let ghost before = calls.deep_view();
                let ghost added = call@;
                calls.push(call);
                assert(calls.deep_view() =~= before.push(added));
            }
            i = i + 1;
        }
        calls
    }

    fn append_reads(&self, calls: &mut Vec<NativeCall>)
        requires
            self@.wf(),
        ensures
            final(calls).deep_view() == old(calls).deep_view() + self@.read_calls(
                self@.ports.len() as int,
            ),
    {
        let ghost views = self.ports.deep_view();
        let ghost start = calls.deep_view();
        assert(start + Seq::<NativeCallView>::empty() =~= start);
        let mut i: usize = 0;
        while i < self.ports.len()
            invariant
                i <= self.ports.len(),
                self@.wf(),
                views == self.ports.deep_view(),
                calls.deep_view() == start + self@.read_calls(i as int),
            decreases self.ports.len() - i,
        {
            assert(views[i as int] == self.ports[i as int]@);
            assert(views[i as int].valid());
            if self.ports[i].direction.is_readable() {
                match self.ports[i].bucket() {
                    Some(bucket) => {
                        let call = NativeCall::Read {
                            symbol: read_symbol(self.name.as_str(), self.ports[i].name.as_str()),
                            handle: self.model,
                            bucket,
                        };
                        let ghost before = calls.deep_view();
                        let ghost added = call@;
                        calls.push(call);
                        assert(calls.deep_view() =~= before.push(added));
                        assert(calls.deep_view() =~= start + self@.read_calls(i + 1));
                    },
                    None => {
                        assert(false);
                    },
                }
            }
            i = i + 1;
        }
    }

    /// The calls of one evaluation, in the order in which they are to be
    /// made: the values of all ports that can be driven are handed over,
    /// the instance is evaluated, and the ports that can be observed are
    /// read. The values that are read are taken in by
    /// [`Self::finish_eval`].
    pub fn eval(&self) -> (calls: Vec<NativeCall>)
        requires
            self@.wf(),
        ensures
            calls.deep_view() == self@.eval_calls(),
    {
        let mut calls = self.pins();
        let ghost pinned = calls.deep_view();
        let call = NativeCall::Evaluate {
            symbol: evaluator_symbol(self.name.as_str()),
            handle: self.model,
        };
        let ghost added = call@;
        calls.push(call);
        assert(calls.deep_view() =~= pinned.push(added));
        self.append_reads(&mut calls);
        calls
    }

    #[verifier::rlimit(40)]
    fn answered(&self, replies: &Vec<VerilatorValue>) -> (fits: bool)
        requires
            self@.wf(),
        ensures
            fits == self@.answered_by(replies@),
    {
        let ghost views = self.ports.deep_view();
        let mut k: usize = 0;
        let mut i: usize = 0;
        while i < self.ports.len()
            invariant
                i <= self.ports.len(),
                self@.wf(),
                views == self.ports.deep_view(),
                views == self@.ports,
                k == readable_before(views, i as int),
                k <= replies.len(),
                forall|j: int| 0 <= j < i ==> reply_fits(views, replies@, j),
            decreases self.ports.len() - i,
        {
            assert(views[i as int] == self.ports[i as int]@);
            assert(views[i as int].valid());
            if self.ports[i].direction.is_readable() {
                if k >= replies.len() {
                    proof {
                        lemma_readable_before_monotonic(views, i + 1, views.len() as int);
                    }
                    return false;
                }
                let carried = self.ports[i].bucket();
                let matches_port = match carried {
                    Some(bucket) => bucket == replies[k].bucket(),
                    None => false,
                };
                if !matches_port {
                    proof {
                        if self@.answered_by(replies@) {
                            assert(views[i as int].direction.readable());
                            assert(false);
                        }
                    }
                    return false;
                }
                proof {
                    lemma_readable_before_monotonic(views, i + 1, views.len() as int);
                }
                k = k + 1;
            }
            assert(reply_fits(views, replies@, i as int));
            i = i + 1;
        }
        proof {
            if k == replies.len() {
                assert forall|j: int|
                    0 <= j < views.len() && (#[trigger] views[j]).direction.readable() implies replies@[readable_before(
                    views,
                    j,
                )].spec_bucket() == views[j].bucket() by {
                    assert(reply_fits(views, replies@, j));
                }
            }
        }
        k == replies.len()
    }

    /// Takes in what the reads of an evaluation gave: `replies` holds one
    /// value for each port that can be observed, in the order of the
    /// ports. Where `replies` does not answer the reads, nothing changes.
    pub fn finish_eval(&mut self, replies: &Vec<VerilatorValue>) -> (outcome: Result<
        (),
        RuntimeError,
    >)
        requires
            old(self)@.wf(),
        ensures
            final(self)@.wf(),
            old(self)@.answered_by(replies@) ==> outcome is Ok && final(self)@ == old(
                self,
            )@.absorbed(replies@),
            !old(self)@.answered_by(replies@) ==> final(self)@ == old(self)@ && (
            outcome matches Err(e) && e@ == RuntimeErrorView::UnexpectedEvent),
    {
        if !self.answered(replies) {
            return Err(RuntimeError::UnexpectedEvent);
        }
        let ghost views = self.ports.deep_view();
        let ghost before = self@;
        let ghost kept = self.values@;
        let mut updated: Vec<VerilatorValue> = Vec::new();
        let mut k: usize = 0;
        let mut i: usize = 0;
        while i < self.ports.len()
            invariant
                i <= self.ports.len(),
                views == self.ports.deep_view(),
                kept == self.values@,
                kept.len() == views.len(),
                replies@.len() == readable_before(views, views.len() as int),
                k == readable_before(views, i as int),
                updated@.len() == i,
                forall|j: int| 0 <= j < i ==> updated@[j] == absorbed_at(views, kept, replies@, j),
            decreases self.ports.len() - i,
        {
            assert(views[i as int] == self.ports[i as int]@);
            if self.ports[i].direction.is_readable() {
                proof {
                    lemma_readable_before_monotonic(views, i + 1, views.len() as int);
                }
                updated.push(replies[k]);
                k = k + 1;
            } else {
                updated.push(self.values[i]);
            }
            i = i + 1;
        }
        self.values = updated;
        proof {
            let target = before.absorbed(replies@).values;
            assert forall|j: int| 0 <= j < target.len() implies self.values@[j] == target[j] by {
                assert(self.values@[j] == absorbed_at(views, kept, replies@, j));
            }
            assert(self.values@ =~= target);
            assert(self@ == before.absorbed(replies@));
            assert forall|j: int| 0 <= j < self@.ports.len() implies (
            #[trigger] self@.values[j]).spec_bucket() == self@.ports[j].bucket() by {
                assert(self@.values[j] == absorbed_at(views, kept, replies@, j));
                if views[j].direction.readable() {
                    assert(before.ports[j].direction.readable());
                } else {
                    assert(before.values[j].spec_bucket() == before.ports[j].bucket());
                }
            }
        }
        Ok(())
    }

    /// The value of `port`, as the last evaluation left it. The port has
    /// to be an output or bidirectional.
    pub fn read(&self, port: &str) -> (outcome: Result<VerilatorValue, DynamicVerilatedModelError>)
        requires
            self@.wf(),
        ensures
            match outcome {
                Ok(value) => self@.read_outcome(port@) == Ok::<
                    VerilatorValue,
                    DynamicVerilatedModelErrorView,
                >(value),
                Err(error) => self@.read_outcome(port@) == Err::<
                    VerilatorValue,
                    DynamicVerilatedModelErrorView,
                >(error@),
            },
    {
        proof {
            lemma_port_index(self@.ports, port@);
        }
        match find_port_index(&self.ports, port) {
            None => Err(
                DynamicVerilatedModelError::NoSuchPort {
                    top_module: self.name.clone(),
                    port: port.to_owned(),
                    source: None,
                },
            ),
            Some(i) => {
                assert(self.ports.deep_view()[i as int] == self.ports[i as int]@);
                if !self.ports[i].direction.is_readable() {
                    Err(
                        DynamicVerilatedModelError::InvalidPortDirection {
                            top_module: self.name.clone(),
                            port: port.to_owned(),
                            direction: self.ports[i].direction,
                            attempted_direction: PortDirection::Output,
                        },
                    )
                } else {
                    Ok(self.values[i])
                }
            },
        }
    }

    /// Gives `port` the value `value`, which the next evaluation hands to
    /// the native instance. The port has to be an input or bidirectional,
    /// and the value of the port's integer type.
    pub fn pin(&mut self, port: &str, value: VerilatorValue) -> (outcome: Result<
        (),
        DynamicVerilatedModelError,
    >)
        requires
            old(self)@.wf(),
        ensures
            final(self)@.wf(),
            match outcome {
                Ok(()) => old(self)@.pin_error(port@, value) is None && final(self)@ == old(
                    self,
                )@.with_value(port_index(old(self)@.ports, port@)->0, value),
                Err(error) => old(self)@.pin_error(port@, value) == Some(error@) && final(self)@
                    == old(self)@,
            },
    {
        proof {
            lemma_port_index(self@.ports, port@);
        }
        match find_port_index(&self.ports, port) {
            None => Err(
                DynamicVerilatedModelError::NoSuchPort {
                    top_module: self.name.clone(),
                    port: port.to_owned(),
                    source: None,
                },
            ),
            Some(i) => {
                assert(self.ports.deep_view()[i as int] == self.ports[i as int]@);
                assert(self@.ports[i as int].valid());
                if !self.ports[i].direction.is_writable() {
                    return Err(
                        DynamicVerilatedModelError::InvalidPortDirection {
                            top_module: self.name.clone(),
                            port: port.to_owned(),
                            direction: self.ports[i].direction,
                            attempted_direction: PortDirection::Input,
                        },
                    );
                }
                let offered = value.bucket();
                let fits = match self.ports[i].bucket() {
                    Some(bucket) => bucket == offered,
                    None => false,
                };
                if !fits {
                    return Err(
                        DynamicVerilatedModelError::InvalidPortWidth {
                            top_module: self.name.clone(),
                            port: port.to_owned(),
                            width: self.ports[i].msb - self.ports[i].lsb + 1,
                            attempted_lower: offered.lower(),
                            attempted_higher: offered.bits(),
                        },
                    );
                }
                self.values.set(i, value);
                Ok(())
            },
        }
    }

    fn set_clock(&mut self, clock: usize, high: bool)
        requires
            old(self)@.wf(),
            old(self)@.clock == Some(clock as int),
        ensures
            final(self)@.wf(),
            final(self)@ == old(self)@.with_value(
                clock as int,
                if high {
                    one_of(old(self)@.ports[clock as int].bucket())
                } else {
                    zero_of(old(self)@.ports[clock as int].bucket())
                },
            ),
    {
        assert(self.ports.deep_view()[clock as int] == self.ports[clock as int]@);
        assert(self@.ports[clock as int].valid());
        match self.ports[clock].bucket() {
            Some(bucket) => {
                let value = if high {
                    VerilatorValue::one(bucket)
                } else {
                    VerilatorValue::zero(bucket)
                };
                assert(high ==> value == one_of(bucket));
                assert(!high ==> value == zero_of(bucket));
                self.values.set(clock, value);
            },
            None => {
                assert(false);
            },
        }
    }

    /// Takes a tick one step further. A tick drives the clock high,
    /// evaluates, drives the clock low and evaluates again. The driver
    /// starts with [`TickPhase::Start`], makes the calls it is handed and
    /// comes back with the phase it was given and what the reads gave,
    /// until it is handed [`TickPhase::Finished`]. A model without a clock
    /// cannot tick. On an error nothing changes.
    pub fn tick(&mut self, phase: TickPhase, replies: &Vec<VerilatorValue>) -> (outcome: Result<
        (TickPhase, Vec<NativeCall>),
        RuntimeError,
    >)
        requires
            old(self)@.wf(),
        ensures
            final(self)@.wf(),
            match outcome {
                Ok(step) => old(self)@.tick_step(phase, replies@) == Ok::<
                    (VerilatedModelView, TickPhase, Seq<NativeCallView>),
                    RuntimeErrorView,
                >((final(self)@, step.0, step.1.deep_view())),
                Err(error) => old(self)@.tick_step(phase, replies@) == Err::<
                    (VerilatedModelView, TickPhase, Seq<NativeCallView>),
                    RuntimeErrorView,
                >(error@) && final(self)@ == old(self)@,
            },
    {
        let clock = match self.clock {
            None => {
                return Err(RuntimeError::NoClockPort { module: self.name.clone() });
            },
            Some(clock) => clock,
        };
        match phase {
            TickPhase::Start => {
                self.set_clock(clock, true);
                let calls = self.eval();
                Ok((TickPhase::High, calls))
            },
            TickPhase::High => {
                match self.finish_eval(replies) {
                    Err(error) => {
                        return Err(error);
                    },
                    Ok(()) => {},
                }
                self.set_clock(clock, false);
                let calls = self.eval();
                Ok((TickPhase::Low, calls))
            },
            TickPhase::Low => {
                match self.finish_eval(replies) {
                    Err(error) => {
                        return Err(error);
                    },
                    Ok(()) => {},
                }
                let calls: Vec<NativeCall> = Vec::new();
                assert(calls.deep_view() =~= Seq::<NativeCallView>::empty());
                Ok((TickPhase::Finished, calls))
            },
            TickPhase::Finished => Err(RuntimeError::UnexpectedEvent),
        }
    }

    /// Whether a trace was opened on the model.
    pub fn has_open_vcd(&self) -> (opened: bool)
        ensures
            opened == self@.opened_vcd,
    {
        self.opened_vcd
    }

    /// The call that opens a waveform trace at `path`, for a model that
    /// was built with tracing; none for a model that was not. Only one
    /// trace can be opened on a model: an open trace can be continued in
    /// another file instead.
    pub fn open_vcd(&mut self, path: &str) -> (call: Option<NativeCall>)
        requires
            old(self)@.tracing ==> !old(self)@.opened_vcd,
        ensures
            final(self)@ == (VerilatedModelView {
                opened_vcd: old(self)@.tracing || old(self)@.opened_vcd,
                ..old(self)@
            }),
            !old(self)@.tracing ==> call is None,
            old(self)@.tracing ==> call is Some && call->0@ == (NativeCallView::OpenTrace {
                symbol: spec_open_trace_symbol(old(self)@.name),
                handle: old(self)@.model,
                path: path@,
            }),
    {
        if self.tracing {
            self.opened_vcd = true;
            Some(
                NativeCall::OpenTrace {
                    symbol: open_trace_symbol(self.name.as_str()),
                    handle: self.model,
                    path: path.to_owned(),
                },
            )
        } else {
            None
        }
    }
}

/// The accessors of the first `n` ports: for each port its setter, where
/// it can be driven, then its getter, where it can be observed.
pub open spec fn accessor_symbols(
    name: Seq<char>,
    ports: Seq<PortDescriptorView>,
    n: int,
) -> Seq<Seq<char>>
    decreases n,
{
    if n <= 0 {
        Seq::empty()
    } else {
        accessor_symbols(name, ports, n - 1) + (if ports[n - 1].direction.writable() {
            seq![spec_pin_symbol(name, ports[n - 1].name)]
        } else {
            Seq::empty()
        }) + (if ports[n - 1].direction.readable() {
            seq![spec_read_symbol(name, ports[n - 1].name)]
        } else {
            Seq::empty()
        })
    }
}

/// The symbols of the waveform trace of a model.
pub open spec fn tracing_symbols(name: Seq<char>) -> Seq<Seq<char>> {
    seq![
        spec_open_trace_symbol(name),
        spec_vcd_dump_symbol(),
        spec_vcd_open_next_symbol(),
        spec_vcd_flush_symbol(),
        spec_vcd_close_symbol(),
    ]
}

/// Every symbol that a model with fixed ports takes from its library when
/// it is made: the destructor, the constructor, the evaluator, the
/// accessors of all ports, and the symbols of the trace where the model is
/// built with tracing.
pub open spec fn spec_required_symbols(
    name: Seq<char>,
    ports: Seq<PortDescriptorView>,
    tracing: bool,
) -> Seq<Seq<char>> {
    seq![
        spec_destructor_symbol(name),
        spec_constructor_symbol(name),
        spec_evaluator_symbol(name),
    ] + accessor_symbols(
        name,
        ports,
        ports.len() as int,
    ) + (if tracing {
        tracing_symbols(name)
    } else {
        Seq::empty()
    })
}

/// Lists the symbols that a model with fixed ports needs from its library.
/// One that is missing there is an error that names the symbol and the
/// module.
pub fn required_symbols(name: &str, ports: &Vec<PortDescriptor>, tracing: bool) -> (symbols: Vec<
    String,
>)
    ensures
        symbols.deep_view() == spec_required_symbols(name@, ports.deep_view(), tracing),
{
    let ghost views = ports.deep_view();
    let mut symbols: Vec<String> = Vec::new();
    assert(symbols.deep_view() =~= Seq::<Seq<char>>::empty());
    push_text(&mut symbols, destructor_symbol(name));
    push_text(&mut symbols, constructor_symbol(name));
    push_text(&mut symbols, evaluator_symbol(name));
    let ghost head = symbols.deep_view();
    assert(head =~= seq![
        spec_destructor_symbol(name@),
        spec_constructor_symbol(name@),
        spec_evaluator_symbol(name@),
    ]);
    assert(head + Seq::<Seq<char>>::empty() =~= head);
    let mut i: usize = 0;
    while i < ports.len()
        invariant
            i <= ports.len(),
            views == ports.deep_view(),
            symbols.deep_view() == head + accessor_symbols(name@, views, i as int),
        decreases ports.len() - i,
    {
        assert(views[i as int] == ports[i as int]@);
        let ghost before = accessor_symbols(name@, views, i as int);
        if ports[i].direction.is_writable() {
            push_text(&mut symbols, pin_symbol(name, ports[i].name.as_str()));
        }
        if ports[i].direction.is_readable() {
            push_text(&mut symbols, read_symbol(name, ports[i].name.as_str()));
        }
        assert(symbols.deep_view() =~= head + accessor_symbols(name@, views, i + 1));
        i = i + 1;
    }
    if tracing {
        let ghost body = symbols.deep_view();
        push_text(&mut symbols, open_trace_symbol(name));
        push_text(&mut symbols, vcd_dump_symbol());
        push_text(&mut symbols, vcd_open_next_symbol());
        push_text(&mut symbols, vcd_flush_symbol());
        push_text(&mut symbols, vcd_close_symbol());
        assert(symbols.deep_view() =~= body + tracing_symbols(name@));
    } else {
        assert(symbols.deep_view() + Seq::<Seq<char>>::empty() =~= symbols.deep_view());
    }
    symbols
}

} // verus!
