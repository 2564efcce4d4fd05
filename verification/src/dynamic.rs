//! Models whose ports are reached by name at run time.

use crate::error::RuntimeError;
use crate::native::{NativeCall, NativeCallView};
use crate::port::{
    bucket_for, spec_bucket_for, PortDescriptor, PortDescriptorView, PortDirection, WidthBucket,
};
use crate::signature::{lemma_signature_accepted, signature_error, validate_signature};
use crate::symbols::{
    evaluator_symbol, pin_symbol, read_symbol, spec_evaluator_symbol, spec_pin_symbol,
    spec_read_symbol,
};
use crate::text::{decimal, decimal_string, text_eq};
use crate::types::{CData, IData, QData, SData};
use vstd::prelude::*;
use vstd::std_specs::convert::FromSpecImpl;
use vstd::string::*;

verus! {

/// The value of a port, in the integer type that carries it.
#[derive(PartialEq, Eq, Hash, Clone, Copy, Debug, Structural)]
pub enum VerilatorValue {
    CData(CData),
    SData(SData),
    IData(IData),
    QData(QData),
}

impl VerilatorValue {
    /// The integer type of the value.
    pub open spec fn spec_bucket(self) -> WidthBucket {
        match self {
            VerilatorValue::CData(_) => WidthBucket::U8,
            VerilatorValue::SData(_) => WidthBucket::U16,
            VerilatorValue::IData(_) => WidthBucket::U32,
            VerilatorValue::QData(_) => WidthBucket::U64,
        }
    }

    /// The number that the value holds.
    pub open spec fn spec_number(self) -> int {
        match self {
            VerilatorValue::CData(v) => v as int,
            VerilatorValue::SData(v) => v as int,
            VerilatorValue::IData(v) => v as int,
            VerilatorValue::QData(v) => v as int,
        }
    }

    /// The maximum number of bits this value takes up.
    pub fn width(&self) -> (bits: usize)
        ensures
            bits == self.spec_bucket().spec_bits(),
    {
        match self {
            VerilatorValue::CData(_) => 8,
            VerilatorValue::SData(_) => 16,
            VerilatorValue::IData(_) => 32,
            VerilatorValue::QData(_) => 64,
        }
    }

    /// The integer type of the value.
    pub fn bucket(&self) -> (bucket: WidthBucket)
        ensures
            bucket == self.spec_bucket(),
    {
        match self {
            VerilatorValue::CData(_) => WidthBucket::U8,
            VerilatorValue::SData(_) => WidthBucket::U16,
            VerilatorValue::IData(_) => WidthBucket::U32,
            VerilatorValue::QData(_) => WidthBucket::U64,
        }
    }

    /// The number that the value holds.
    pub fn number(&self) -> (n: u64)
        ensures
            n == self.spec_number(),
    {
        match self {
            VerilatorValue::CData(v) => *v as u64,
            VerilatorValue::SData(v) => *v as u64,
            VerilatorValue::IData(v) => *v as u64,
            VerilatorValue::QData(v) => *v,
        }
    }

    /// The value zero in the integer type `bucket`.
    pub fn zero(bucket: WidthBucket) -> (value: Self)
        ensures
            value.spec_bucket() == bucket,
            value.spec_number() == 0,
    {
        match bucket {
            WidthBucket::U8 => VerilatorValue::CData(0),
            WidthBucket::U16 => VerilatorValue::SData(0),
            WidthBucket::U32 => VerilatorValue::IData(0),
            WidthBucket::U64 => VerilatorValue::QData(0),
        }
    }

    /// The value one in the integer type `bucket`.
    pub fn one(bucket: WidthBucket) -> (value: Self)
        ensures
            value.spec_bucket() == bucket,
            value.spec_number() == 1,
    {
        match bucket {
            WidthBucket::U8 => VerilatorValue::CData(1),
            WidthBucket::U16 => VerilatorValue::SData(1),
            WidthBucket::U32 => VerilatorValue::IData(1),
            WidthBucket::U64 => VerilatorValue::QData(1),
        }
    }

    /// The value in decimal.
    pub fn to_text(&self) -> (text: String)
        ensures
            text@ == decimal(self.spec_number() as nat),
    {
        decimal_string(self.number())
    }
}

impl From<CData> for VerilatorValue {
    fn from(value: CData) -> (converted: Self) {
        VerilatorValue::CData(value)
    }
}

impl FromSpecImpl<CData> for VerilatorValue {
    open spec fn obeys_from_spec() -> bool {
        true
    }

    open spec fn from_spec(value: CData) -> Self {
        VerilatorValue::CData(value)
    }
}

impl From<SData> for VerilatorValue {
    fn from(value: SData) -> (converted: Self) {
        VerilatorValue::SData(value)
    }
}

impl FromSpecImpl<SData> for VerilatorValue {
    open spec fn obeys_from_spec() -> bool {
        true
    }

    open spec fn from_spec(value: SData) -> Self {
        VerilatorValue::SData(value)
    }
}

impl From<IData> for VerilatorValue {
    fn from(value: IData) -> (converted: Self) {
        VerilatorValue::IData(value)
    }
}

impl FromSpecImpl<IData> for VerilatorValue {
    open spec fn obeys_from_spec() -> bool {
        true
    }

    open spec fn from_spec(value: IData) -> Self {
        VerilatorValue::IData(value)
    }
}

impl From<QData> for VerilatorValue {
    fn from(value: QData) -> (converted: Self) {
        VerilatorValue::QData(value)
    }
}

impl FromSpecImpl<QData> for VerilatorValue {
    open spec fn obeys_from_spec() -> bool {
        true
    }

    open spec fn from_spec(value: QData) -> Self {
        VerilatorValue::QData(value)
    }
}

/// Why a port could not be read or driven by name.
#[derive(Debug, Clone)]
pub enum DynamicVerilatedModelError {
    /// The model has no port of that name, or the library has no accessor
    /// for it; in the second case `source` says what the loader reported.
    NoSuchPort { top_module: String, port: String, source: Option<String> },
    /// The value is not of the integer type that carries the port.
    InvalidPortWidth {
        top_module: String,
        port: String,
        width: usize,
        attempted_lower: usize,
        attempted_higher: usize,
    },
    /// The port cannot be used in the attempted direction.
    InvalidPortDirection {
        top_module: String,
        port: String,
        direction: PortDirection,
        attempted_direction: PortDirection,
    },
}

/// What a [`DynamicVerilatedModelError`] holds.
pub ghost enum DynamicVerilatedModelErrorView {
    NoSuchPort { top_module: Seq<char>, port: Seq<char>, source: Option<Seq<char>> },
    InvalidPortWidth {
        top_module: Seq<char>,
        port: Seq<char>,
        width: int,
        attempted_lower: int,
        attempted_higher: int,
    },
    InvalidPortDirection {
        top_module: Seq<char>,
        port: Seq<char>,
        direction: PortDirection,
        attempted_direction: PortDirection,
    },
}

impl View for DynamicVerilatedModelError {
    type V = DynamicVerilatedModelErrorView;

    open spec fn view(&self) -> DynamicVerilatedModelErrorView {
        match self {
            DynamicVerilatedModelError::NoSuchPort {
                top_module,
                port,
                source,
            } => DynamicVerilatedModelErrorView::NoSuchPort {
                top_module: top_module@,
                port: port@,
                source: match source {
                    Some(detail) => Some(detail@),
                    None => None,
                },
            },
            DynamicVerilatedModelError::InvalidPortWidth {
                top_module,
                port,
                width,
                attempted_lower,
                attempted_higher,
            } => DynamicVerilatedModelErrorView::InvalidPortWidth {
                top_module: top_module@,
                port: port@,
                width: *width as int,
                attempted_lower: *attempted_lower as int,
                attempted_higher: *attempted_higher as int,
            },
            DynamicVerilatedModelError::InvalidPortDirection {
                top_module,
                port,
                direction,
                attempted_direction,
            } => DynamicVerilatedModelErrorView::InvalidPortDirection {
                top_module: top_module@,
                port: port@,
                direction: *direction,
                attempted_direction: *attempted_direction,
            },
        }
    }
}

impl DynamicVerilatedModelErrorView {
    /// The message shown to the user.
    pub open spec fn message(self) -> Seq<char> {
        match self {
            DynamicVerilatedModelErrorView::NoSuchPort { top_module, port, source } => {
                "Port "@ + port + " not found on verilated module "@ + top_module
                    + ": did you forget to specify it in the runtime `create_dyn_model` constructor?: "@
                    + (match source {
                    Some(detail) => "Some("@ + detail + ")"@,
                    None => "None"@,
                })
            },
            DynamicVerilatedModelErrorView::InvalidPortWidth {
                top_module,
                port,
                width,
                attempted_lower,
                attempted_higher,
            } => {
                "Port "@ + port + " on verilated module "@ + top_module + " has width "@ + decimal(
                    width as nat,
                ) + ", but used as if it was in the "@ + decimal(attempted_lower as nat) + " to "@
                    + decimal(attempted_higher as nat) + " width range"@
            },
            DynamicVerilatedModelErrorView::InvalidPortDirection {
                top_module,
                port,
                direction,
                attempted_direction,
            } => {
                "Port "@ + port + " on verilated module "@ + top_module + " is an "@
                    + direction.keyword() + " port, but was used as an "@
                    + attempted_direction.keyword() + " port"@
            },
        }
    }
}

impl DynamicVerilatedModelError {
    /// The message shown to the user.
    pub fn message(&self) -> (text: String)
        ensures
            text@ == self@.message(),
    {
        match self {
            DynamicVerilatedModelError::NoSuchPort { top_module, port, source } => {
                let mut text = "Port ".to_owned();
                text.append(port.as_str());
                text.append(" not found on verilated module ");
                text.append(top_module.as_str());
                text.append(
                    ": did you forget to specify it in the runtime `create_dyn_model` constructor?: ",
                );
                let reported = match source {
                    Some(detail) => {
                        let mut reported = "Some(".to_owned();
                        reported.append(detail.as_str());
                        reported.append(")");
                        reported
                    },
                    None => "None".to_owned(),
                };
                text.append(reported.as_str());
                text
            },
            DynamicVerilatedModelError::InvalidPortWidth {
                top_module,
                port,
                width,
                attempted_lower,
                attempted_higher,
            } => {
                let mut text = "Port ".to_owned();
                text.append(port.as_str());
                text.append(" on verilated module ");
                text.append(top_module.as_str());
                text.append(" has width ");
                let width_text = decimal_string(*width as u64);
                text.append(width_text.as_str());
                text.append(", but used as if it was in the ");
                let lower_text = decimal_string(*attempted_lower as u64);
                text.append(lower_text.as_str());
                text.append(" to ");
                let higher_text = decimal_string(*attempted_higher as u64);
                text.append(higher_text.as_str());
                text.append(" width range");
                text
            },
            DynamicVerilatedModelError::InvalidPortDirection {
                top_module,
                port,
                direction,
                attempted_direction,
            } => {
                let mut text = "Port ".to_owned();
                text.append(port.as_str());
                text.append(" on verilated module ");
                text.append(top_module.as_str());
                text.append(" is an ");
                text.append(direction.name());
                text.append(" port, but was used as an ");
                text.append(attempted_direction.name());
                text.append(" port");
                text
            },
        }
    }
}

/// One port of a dynamic model.
#[derive(Debug, Clone)]
pub struct DynamicPort {
    pub name: String,
    pub width: usize,
    pub direction: PortDirection,
}

/// What a [`DynamicPort`] holds.
pub ghost struct DynamicPortView {
    pub name: Seq<char>,
    pub width: int,
    pub direction: PortDirection,
}

impl View for DynamicPort {
    type V = DynamicPortView;

    open spec fn view(&self) -> DynamicPortView {
        DynamicPortView { name: self.name@, width: self.width as int, direction: self.direction }
    }
}

impl DeepView for DynamicPort {
    type V = DynamicPortView;

    open spec fn deep_view(&self) -> DynamicPortView {
        self@
    }
}

/// The port table of a model with the signature `ports`: name, width and
/// direction of each port, in order.
pub open spec fn port_table(ports: Seq<PortDescriptorView>) -> Seq<DynamicPortView> {
    Seq::new(
        ports.len(),
        |i: int|
            DynamicPortView {
                name: ports[i].name,
                width: ports[i].width(),
                direction: ports[i].direction,
            },
    )
}

/// The port called `name`. Where a name was declared twice, the later
/// declaration counts.
pub open spec fn find_port(table: Seq<DynamicPortView>, name: Seq<char>) -> Option<
    DynamicPortView,
>
    decreases table.len(),
{
    if table.len() == 0 {
        None
    } else if table.last().name == name {
        Some(table.last())
    } else {
        find_port(table.drop_last(), name)
    }
}

/// A hardware model of which only the name and a table of ports are known.
/// It stands for one native instance in one loaded library.
pub struct DynamicVerilatedModel {
    ports: Vec<DynamicPort>,
    name: String,
    main: usize,
    library: usize,
}

/// What a [`DynamicVerilatedModel`] holds.
pub ghost struct DynamicVerilatedModelView {
    /// The port table.
    pub ports: Seq<DynamicPortView>,
    /// The name of the module.
    pub name: Seq<char>,
    /// The handle of the native instance.
    pub main: usize,
    /// The place of the library in the runtime's arena.
    pub library: usize,
}

impl DynamicVerilatedModelView {
    /// The call that reads `port`, or why there is none. The port has to be
    /// in the table and to be an output or bidirectional.
    pub open spec fn read_plan(self, port: Seq<char>) -> Result<
        NativeCallView,
        DynamicVerilatedModelErrorView,
    > {
        match find_port(self.ports, port) {
            None => Err(
                DynamicVerilatedModelErrorView::NoSuchPort {
                    top_module: self.name,
                    port,
                    source: None,
                },
            ),
            Some(found) => if !found.direction.readable() {
                Err(
                    DynamicVerilatedModelErrorView::InvalidPortDirection {
                        top_module: self.name,
                        port,
                        direction: found.direction,
                        attempted_direction: PortDirection::Output,
                    },
                )
            } else {
                Ok(
                    NativeCallView::Read {
                        symbol: spec_read_symbol(self.name, port),
                        handle: self.main,
                        bucket: spec_bucket_for(found.width)->0,
                    },
                )
            },
        }
    }

    /// The call that drives `port` with `value`, or why there is none. The
    /// port has to be in the table, to be an input or bidirectional, and
    /// the value has to be of the integer type that carries the port.
    pub open spec fn pin_plan(self, port: Seq<char>, value: VerilatorValue) -> Result<
        NativeCallView,
        DynamicVerilatedModelErrorView,
    > {
        match find_port(self.ports, port) {
            None => Err(
                DynamicVerilatedModelErrorView::NoSuchPort {
                    top_module: self.name,
                    port,
                    source: None,
                },
            ),
            Some(found) => if !found.direction.writable() {
                Err(
                    DynamicVerilatedModelErrorView::InvalidPortDirection {
                        top_module: self.name,
                        port,
                        direction: found.direction,
                        attempted_direction: PortDirection::Input,
                    },
                )
            } else if spec_bucket_for(found.width) != Some(value.spec_bucket()) {
                Err(
                    DynamicVerilatedModelErrorView::InvalidPortWidth {
                        top_module: self.name,
                        port,
                        width: found.width,
                        attempted_lower: value.spec_bucket().spec_lower(),
                        attempted_higher: value.spec_bucket().spec_bits(),
                    },
                )
            } else {
                Ok(
                    NativeCallView::Pin {
                        symbol: spec_pin_symbol(self.name, port),
                        handle: self.main,
                        value,
                    },
                )
            },
        }
    }

    /// What a read of `port` gives once the library has answered: `reply`
    /// is the value that came back, or what the loader said when it did
    /// not find the accessor.
    pub open spec fn read_result(
        self,
        port: Seq<char>,
        reply: Result<VerilatorValue, Seq<char>>,
    ) -> Result<VerilatorValue, DynamicVerilatedModelErrorView> {
        match self.read_plan(port) {
            Err(error) => Err(error),
            Ok(call) => match reply {
                Err(detail) => Err(
                    DynamicVerilatedModelErrorView::NoSuchPort {
                        top_module: self.name,
                        port,
                        source: Some(detail),
                    },
                ),
                Ok(value) => if call->Read_bucket == value.spec_bucket() {
                    Ok(value)
                } else {
                    Err(
                        DynamicVerilatedModelErrorView::InvalidPortWidth {
                            top_module: self.name,
                            port,
                            width: find_port(self.ports, port)->0.width,
                            attempted_lower: value.spec_bucket().spec_lower(),
                            attempted_higher: value.spec_bucket().spec_bits(),
                        },
                    )
                },
            },
        }
    }

    /// What driving `port` with `value` gives once the library has
    /// answered.
    pub open spec fn pin_result(
        self,
        port: Seq<char>,
        value: VerilatorValue,
        reply: Result<(), Seq<char>>,
    ) -> Result<(), DynamicVerilatedModelErrorView> {
        match self.pin_plan(port, value) {
            Err(error) => Err(error),
            Ok(_) => match reply {
                Err(detail) => Err(
                    DynamicVerilatedModelErrorView::NoSuchPort {
                        top_module: self.name,
                        port,
                        source: Some(detail),
                    },
                ),
                Ok(()) => Ok(()),
            },
        }
    }
}

impl View for DynamicVerilatedModel {
    type V = DynamicVerilatedModelView;

    closed spec fn view(&self) -> DynamicVerilatedModelView {
        DynamicVerilatedModelView {
            ports: self.ports.deep_view(),
            name: self.name@,
            main: self.main,
            library: self.library,
        }
    }
}

impl DynamicVerilatedModel {
    #[verifier::type_invariant]
    spec fn well_formed(&self) -> bool {
        forall|i: int|
            0 <= i < self.ports.len() ==> 1 <= (#[trigger] self.ports[i]).width <= 64
    }

    /// Makes the model of the native instance `main` in the library at
    /// place `library`. The signature is validated first.
    pub fn new(name: &str, ports: &Vec<PortDescriptor>, main: usize, library: usize) -> (outcome:
        Result<Self, RuntimeError>)
        ensures
            outcome is Ok <==> signature_error(name@, ports.deep_view()) is None,
            outcome matches Err(e) ==> Some(e@) == signature_error(name@, ports.deep_view()),
            outcome matches Ok(model) ==> model@ == (DynamicVerilatedModelView {
                ports: port_table(ports.deep_view()),
                name: name@,
                main,
                library,
            }),
    {
        match validate_signature(name, ports) {
            Err(e) => {
                return Err(e);
            },
            Ok(()) => {},
        }
        let ghost views = ports.deep_view();
        proof {
            lemma_signature_accepted(name@, views);
        }
        let mut table: Vec<DynamicPort> = Vec::new();
        let mut i: usize = 0;
        while i < ports.len()
            invariant
                i <= ports.len(),
                views == ports.deep_view(),
                forall|j: int| 0 <= j < views.len() ==> (#[trigger] views[j]).valid(),
                table.len() == i,
                table.deep_view() =~= port_table(views).take(i as int),
                forall|j: int| 0 <= j < i ==> 1 <= (#[trigger] table[j]).width <= 64,
            decreases ports.len() - i,
        {
            let port = &ports[i];
            assert(views[i as int] == port@);
            assert(views[i as int].valid());
            let entry = DynamicPort {
                name: port.name.clone(),
                width: port.msb - port.lsb + 1,
                direction: port.direction,
            };
            let ghost before = table.deep_view();
            let ghost added = entry@;
            table.push(entry);
            assert(table.deep_view() =~= before.push(added));
            i = i + 1;
        }
        assert(port_table(views).take(ports.len() as int) =~= port_table(views));
        Ok(DynamicVerilatedModel { ports: table, name: name.to_owned(), main, library })
    }

    /// The name of the module.
    pub fn name(&self) -> (name: &str)
        ensures
            name@ == self@.name,
    {
        self.name.as_str()
    }

    /// The handle of the native instance.
    pub fn handle(&self) -> (handle: usize)
        ensures
            handle == self@.main,
    {
        self.main
    }

    /// The place of the model's library in the runtime's arena.
    pub fn library(&self) -> (library: usize)
        ensures
            library == self@.library,
    {
        self.library
    }

    fn find(&self, port: &str) -> (found: Option<usize>)
        ensures
            match found {
                Some(i) => i < self.ports.len() && find_port(self@.ports, port@) == Some(
                    self.ports[i as int]@,
                ),
                None => find_port(self@.ports, port@) is None,
            },
    {
        let ghost table = self.ports.deep_view();
        let mut i: usize = self.ports.len();
        assert(table.take(i as int) =~= table);
        while i > 0
            invariant
                i <= self.ports.len(),
                table == self.ports.deep_view(),
                find_port(table, port@) == find_port(table.take(i as int), port@),
            decreases i,
        {
            i = i - 1;
            proof {
                assert(table.take(i + 1).drop_last() =~= table.take(i as int));
                assert(table.take(i + 1).last() == self.ports[i as int]@);
            }
            if text_eq(self.ports[i].name.as_str(), port) {
                return Some(i);
            }
        }
        None
    }

    /// The call that evaluates the model.
    pub fn eval(&mut self) -> (call: NativeCall)
        ensures
            final(self)@ == old(self)@,
            call@ == (NativeCallView::Evaluate {
                symbol: spec_evaluator_symbol(old(self)@.name),
                handle: old(self)@.main,
            }),
    {
        NativeCall::Evaluate { symbol: evaluator_symbol(self.name.as_str()), handle: self.main }
    }

    /// The call that reads `port`, if `port` is a port of this model that
    /// can be read. The accessor is looked up by its name in the library
    /// each time.
    pub fn read(&self, port: &str) -> (outcome: Result<NativeCall, DynamicVerilatedModelError>)
        ensures
            match outcome {
                Ok(call) => self@.read_plan(port@) == Ok::<
                    NativeCallView,
                    DynamicVerilatedModelErrorView,
                >(call@),
                Err(error) => self@.read_plan(port@) == Err::<
                    NativeCallView,
                    DynamicVerilatedModelErrorView,
                >(error@),
            },
    {
        proof {
            use_type_invariant(self);
        }
        match self.find(port) {
            None => Err(
                DynamicVerilatedModelError::NoSuchPort {
                    top_module: self.name.clone(),
                    port: port.to_owned(),
                    source: None,
                },
            ),
            Some(i) => {
                let found = &self.ports[i];
                if !found.direction.is_readable() {
                    return Err(
                        DynamicVerilatedModelError::InvalidPortDirection {
                            top_module: self.name.clone(),
                            port: port.to_owned(),
                            direction: found.direction,
                            attempted_direction: PortDirection::Output,
                        },
                    );
                }
                match bucket_for(found.width) {
                    Some(bucket) => Ok(
                        NativeCall::Read {
                            symbol: read_symbol(self.name.as_str(), port),
                            handle: self.main,
                            bucket,
                        },
                    ),
                    None => {
                        assert(false);
                        Err(
                            DynamicVerilatedModelError::NoSuchPort {
                                top_module: self.name.clone(),
                                port: port.to_owned(),
                                source: None,
                            },
                        )
                    },
                }
            },
        }
    }

    /// The call that drives `port` with `value`, if `port` is a port of
    /// this model that can be driven and `value` is of its integer type.
    pub fn pin(&mut self, port: &str, value: VerilatorValue) -> (outcome: Result<
        NativeCall,
        DynamicVerilatedModelError,
    >)
        ensures
            final(self)@ == old(self)@,
            match outcome {
                Ok(call) => old(self)@.pin_plan(port@, value) == Ok::<
                    NativeCallView,
                    DynamicVerilatedModelErrorView,
                >(call@),
                Err(error) => old(self)@.pin_plan(port@, value) == Err::<
                    NativeCallView,
                    DynamicVerilatedModelErrorView,
                >(error@),
            },
    {
        self.plan_pin(port, value)
    }

    fn plan_pin(&self, port: &str, value: VerilatorValue) -> (outcome: Result<
        NativeCall,
        DynamicVerilatedModelError,
    >)
        ensures
            match outcome {
                Ok(call) => self@.pin_plan(port@, value) == Ok::<
                    NativeCallView,
                    DynamicVerilatedModelErrorView,
                >(call@),
                Err(error) => self@.pin_plan(port@, value) == Err::<
                    NativeCallView,
                    DynamicVerilatedModelErrorView,
                >(error@),
            },
    {
        proof {
            use_type_invariant(self);
        }
        match self.find(port) {
            None => Err(
                DynamicVerilatedModelError::NoSuchPort {
                    top_module: self.name.clone(),
                    port: port.to_owned(),
                    source: None,
                },
            ),
            Some(i) => {
                let found = &self.ports[i];
                if !found.direction.is_writable() {
                    return Err(
                        DynamicVerilatedModelError::InvalidPortDirection {
                            top_module: self.name.clone(),
                            port: port.to_owned(),
                            direction: found.direction,
                            attempted_direction: PortDirection::Input,
                        },
                    );
                }
                let carried = bucket_for(found.width);
                let offered = value.bucket();
                let fits = match carried {
                    Some(bucket) => bucket == offered,
                    None => false,
                };
                if !fits {
                    return Err(
                        DynamicVerilatedModelError::InvalidPortWidth {
                            top_module: self.name.clone(),
                            port: port.to_owned(),
                            width: found.width,
                            attempted_lower: offered.lower(),
                            attempted_higher: offered.bits(),
                        },
                    );
                }
                Ok(
                    NativeCall::Pin {
                        symbol: pin_symbol(self.name.as_str(), port),
                        handle: self.main,
                        value,
                    },
                )
            },
        }
    }

    /// The outcome of reading `port`, given what the library answered to
    /// the call of [`Self::read`]: the value, or the loader's words where
    /// the accessor was not found.
    pub fn complete_read(&self, port: &str, reply: Result<VerilatorValue, String>) -> (outcome:
        Result<VerilatorValue, DynamicVerilatedModelError>)
        ensures
            match outcome {
                Ok(value) => self@.read_result(port@, reply_view(reply)) == Ok::<
                    VerilatorValue,
                    DynamicVerilatedModelErrorView,
                >(value),
                Err(error) => self@.read_result(port@, reply_view(reply)) == Err::<
                    VerilatorValue,
                    DynamicVerilatedModelErrorView,
                >(error@),
            },
    {
        let call = match self.read(port) {
            Err(error) => {
                return Err(error);
            },
            Ok(call) => call,
        };
        match reply {
            Err(detail) => Err(
                DynamicVerilatedModelError::NoSuchPort {
                    top_module: self.name.clone(),
                    port: port.to_owned(),
                    source: Some(detail),
                },
            ),
            Ok(value) => {
                let expected = match call {
                    NativeCall::Read { bucket, .. } => bucket,
                    _ => {
                        assert(false);
                        WidthBucket::U8
                    },
                };
                if expected == value.bucket() {
                    Ok(value)
                } else {
                    let width = match self.find(port) {
                        Some(i) => self.ports[i].width,
                        None => {
                            assert(false);
                            0
                        },
                    };
                    Err(
                        DynamicVerilatedModelError::InvalidPortWidth {
                            top_module: self.name.clone(),
                            port: port.to_owned(),
                            width,
                            attempted_lower: value.bucket().lower(),
                            attempted_higher: value.bucket().bits(),
                        },
                    )
                }
            },
        }
    }

    /// The outcome of driving `port` with `value`, given what the library
    /// answered to the call of [`Self::pin`].
    pub fn complete_pin(&self, port: &str, value: VerilatorValue, reply: Result<(), String>) -> (outcome:
        Result<(), DynamicVerilatedModelError>)
        ensures
            match outcome {
                Ok(()) => self@.pin_result(port@, value, unit_reply_view(reply)) == Ok::<
                    (),
                    DynamicVerilatedModelErrorView,
                >(()),
                Err(error) => self@.pin_result(port@, value, unit_reply_view(reply)) == Err::<
                    (),
                    DynamicVerilatedModelErrorView,
                >(error@),
            },
    {
        match self.plan_pin(port, value) {
            Err(error) => {
                return Err(error);
            },
            Ok(_) => {},
        }
        match reply {
            Err(detail) => Err(
                DynamicVerilatedModelError::NoSuchPort {
                    top_module: self.name.clone(),
                    port: port.to_owned(),
                    source: Some(detail),
                },
            ),
            Ok(()) => Ok(()),
        }
    }
}

/// What the library answered to a read.
pub open spec fn reply_view(reply: Result<VerilatorValue, String>) -> Result<
    VerilatorValue,
    Seq<char>,
> {
    match reply {
        Ok(value) => Ok(value),
        Err(detail) => Err(detail@),
    }
}

/// What the library answered to a call without a result.
pub open spec fn unit_reply_view(reply: Result<(), String>) -> Result<(), Seq<char>> {
    match reply {
        Ok(()) => Ok(()),
        Err(detail) => Err(detail@),
    }
}

/// A name is found exactly when the table has a port of that name, and
/// what is found is a port of the table with that name.
pub proof fn lemma_find_port(table: Seq<DynamicPortView>, name: Seq<char>)
    ensures
        find_port(table, name) is None <==> forall|i: int|
            0 <= i < table.len() ==> (#[trigger] table[i]).name != name,
        find_port(table, name) matches Some(found) ==> found.name == name && exists|i: int|
            0 <= i < table.len() && #[trigger] table[i] == found,
    decreases table.len(),
{
    if table.len() > 0 {
        lemma_find_port(table.drop_last(), name);
        if table.last().name == name {
            assert(table[table.len() - 1] == table.last());
        } else {
            assert forall|i: int| 0 <= i < table.len() - 1 implies table.drop_last()[i]
                == table[i] by {}
            if find_port(table, name) is Some {
                let found = find_port(table, name)->0;
                let i = choose|i: int|
                    0 <= i < table.drop_last().len() && #[trigger] table.drop_last()[i] == found;
                assert(table[i] == found);
            } else {
                assert forall|i: int| 0 <= i < table.len() implies (#[trigger] table[i]).name
                    != name by {
                    if i < table.len() - 1 {
                        assert(table.drop_last()[i].name != name);
                    }
                }
            }
        }
    }
}

/// A port that was not declared can be neither read nor driven: both
/// attempts name the port that was asked for and the module.
pub proof fn lemma_unknown_port(
    model: DynamicVerilatedModelView,
    port: Seq<char>,
    value: VerilatorValue,
)
    requires
        forall|i: int| 0 <= i < model.ports.len() ==> (#[trigger] model.ports[i]).name != port,
    ensures
        model.read_plan(port) == Err::<NativeCallView, DynamicVerilatedModelErrorView>(
            DynamicVerilatedModelErrorView::NoSuchPort {
                top_module: model.name,
                port,
                source: None,
            },
        ),
        model.pin_plan(port, value) == Err::<NativeCallView, DynamicVerilatedModelErrorView>(
            DynamicVerilatedModelErrorView::NoSuchPort {
                top_module: model.name,
                port,
                source: None,
            },
        ),
{
    lemma_find_port(model.ports, port);
}

/// An input cannot be read, and an output cannot be driven, whatever the
/// value is.
pub proof fn lemma_direction_enforced(
    model: DynamicVerilatedModelView,
    port: Seq<char>,
    value: VerilatorValue,
)
    requires
        find_port(model.ports, port) is Some,
    ensures
        find_port(model.ports, port)->0.direction == PortDirection::Input ==> model.read_plan(port)
            == Err::<NativeCallView, DynamicVerilatedModelErrorView>(
            DynamicVerilatedModelErrorView::InvalidPortDirection {
                top_module: model.name,
                port,
                direction: PortDirection::Input,
                attempted_direction: PortDirection::Output,
            },
        ),
        find_port(model.ports, port)->0.direction == PortDirection::Output ==> model.pin_plan(
            port,
            value,
        ) == Err::<NativeCallView, DynamicVerilatedModelErrorView>(
            DynamicVerilatedModelErrorView::InvalidPortDirection {
                top_module: model.name,
                port,
                direction: PortDirection::Output,
                attempted_direction: PortDirection::Input,
            },
        ),
{
}

/// On a bidirectional port of any width from 1 to 64, a value of the
/// port's integer type is handed to the library as it is, and a value of
/// that type that the library hands back is returned as it is. A value of
/// any other type is refused for its width.
pub proof fn lemma_bucket_round_trip(
    model: DynamicVerilatedModelView,
    port: Seq<char>,
    value: VerilatorValue,
)
    requires
        find_port(model.ports, port) is Some,
        find_port(model.ports, port)->0.direction == PortDirection::Inout,
        1 <= find_port(model.ports, port)->0.width <= 64,
    ensures
        ({
            let width = find_port(model.ports, port)->0.width;
            &&& value.spec_bucket().holds(width) ==> model.pin_plan(port, value) == Ok::<
                NativeCallView,
                DynamicVerilatedModelErrorView,
            >(
                NativeCallView::Pin {
                    symbol: spec_pin_symbol(model.name, port),
                    handle: model.main,
                    value,
                },
            ) && model.read_result(port, Ok(value)) == Ok::<
                VerilatorValue,
                DynamicVerilatedModelErrorView,
            >(value)
            &&& !value.spec_bucket().holds(width) ==> model.pin_plan(port, value) == Err::<
                NativeCallView,
                DynamicVerilatedModelErrorView,
            >(
                DynamicVerilatedModelErrorView::InvalidPortWidth {
                    top_module: model.name,
                    port,
                    width,
                    attempted_lower: value.spec_bucket().spec_lower(),
                    attempted_higher: value.spec_bucket().spec_bits(),
                },
            )
        }),
{
}

} // verus!
