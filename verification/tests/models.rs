use marlin::config::{VerilatedModelConfig, VerilatorRuntimeOptions};
use marlin::dynamic::{DynamicVerilatedModel, DynamicVerilatedModelError, VerilatorValue};
use marlin::error::RuntimeError;
use marlin::ledger::DeallocationLedger;
use marlin::model::{required_symbols, TickPhase, VerilatedModel};
use marlin::native::NativeCall;
use marlin::port::{PortDescriptor, PortDirection, WidthBucket};
use marlin::runtime::{
    LibraryLoad, LoadAction, LoadEvent, LoadPhase, SourceFile, VerilatorRuntime,
};
use marlin::symbols::SymbolLookup;
use marlin::vcd::{new_vcd, new_vcd_useless};

fn port(name: &str, msb: usize, lsb: usize, direction: PortDirection) -> PortDescriptor {
    PortDescriptor::new(name, msb, lsb, direction)
}

/// A native library for tests: it keeps the pins of each instance, and an
/// evaluation copies the value of `from` to `to` for each wire.
struct Native {
    pins: Vec<(String, VerilatorValue)>,
    outputs: Vec<(String, VerilatorValue)>,
    wires: Vec<(String, String)>,
    top: String,
    evaluations: usize,
    seen: Vec<String>,
}

impl Native {
    fn new(top: &str, wires: &[(&str, &str)]) -> Native {
        Native {
            pins: vec![],
            outputs: vec![],
            wires: wires.iter().map(|(a, b)| (a.to_string(), b.to_string())).collect(),
            top: top.to_string(),
            evaluations: 0,
            seen: vec![],
        }
    }

    fn store(list: &mut Vec<(String, VerilatorValue)>, name: &str, value: VerilatorValue) {
        match list.iter_mut().find(|(n, _)| n == name) {
            Some(entry) => entry.1 = value,
            None => list.push((name.to_string(), value)),
        }
    }

    fn convert(value: u64, bucket: WidthBucket) -> VerilatorValue {
        match bucket {
            WidthBucket::U8 => VerilatorValue::CData(value as u8),
            WidthBucket::U16 => VerilatorValue::SData(value as u16),
            WidthBucket::U32 => VerilatorValue::IData(value as u32),
            WidthBucket::U64 => VerilatorValue::QData(value),
        }
    }

    /// Performs a call; a read answers with the value.
    fn perform(&mut self, call: &NativeCall) -> Option<VerilatorValue> {
        match call {
            NativeCall::Pin { symbol, value, .. } => {
                let name = symbol.strip_prefix(&format!("ffi_V{}_pin_", self.top)).unwrap();
                self.seen.push(format!("pin {}", name));
                Native::store(&mut self.pins, name, *value);
                None
            }
            NativeCall::Evaluate { symbol, .. } => {
                assert_eq!(symbol, &format!("ffi_V{}_eval", self.top));
                self.seen.push("eval".to_string());
                self.evaluations += 1;
                for (from, to) in self.wires.clone() {
                    if let Some((_, value)) = self.pins.iter().find(|(n, _)| *n == from) {
                        let value = *value;
                        Native::store(&mut self.outputs, &to, value);
                    }
                }
                None
            }
            NativeCall::Read { symbol, bucket, .. } => {
                let name = symbol.strip_prefix(&format!("ffi_V{}_read_", self.top)).unwrap();
                self.seen.push(format!("read {}", name));
                let number = self
                    .outputs
                    .iter()
                    .find(|(n, _)| n == name)
                    .map(|(_, v)| v.number())
                    .unwrap_or(0);
                Some(Native::convert(number, *bucket))
            }
            other => panic!("unexpected {:?}", other),
        }
    }

    fn perform_all(&mut self, calls: &Vec<NativeCall>) -> Vec<VerilatorValue> {
        calls.iter().filter_map(|call| self.perform(call)).collect()
    }
}

fn value_of(bucket: WidthBucket, number: u64) -> VerilatorValue {
    Native::convert(number, bucket)
}

#[test]
fn value_widths_and_conversions() {
    assert_eq!(VerilatorValue::CData(1).width(), 8);
    assert_eq!(VerilatorValue::SData(1).width(), 16);
    assert_eq!(VerilatorValue::IData(1).width(), 32);
    assert_eq!(VerilatorValue::QData(1).width(), 64);
    assert_eq!(VerilatorValue::from(5u8), VerilatorValue::CData(5));
    assert_eq!(VerilatorValue::from(5u16), VerilatorValue::SData(5));
    assert_eq!(VerilatorValue::from(5u32), VerilatorValue::IData(5));
    assert_eq!(VerilatorValue::from(5u64), VerilatorValue::QData(5));
    let converted: VerilatorValue = u32::MAX.into();
    assert_eq!(converted, VerilatorValue::IData(u32::MAX));
    assert_eq!(VerilatorValue::QData(u64::MAX).number(), u64::MAX);
    assert_eq!(VerilatorValue::SData(513).to_text(), "513");
    assert_eq!(VerilatorValue::IData(7).bucket(), WidthBucket::U32);
    assert_eq!(VerilatorValue::zero(WidthBucket::U16), VerilatorValue::SData(0));
    assert_eq!(VerilatorValue::one(WidthBucket::U64), VerilatorValue::QData(1));
}

#[test]
fn dynamic_round_trip_for_every_width() {
    for width in 1..=64usize {
        let ports = vec![port("p", width - 1, 0, PortDirection::Inout)];
        let mut model = DynamicVerilatedModel::new("main", &ports, 7, 0).unwrap();
        let mut native = Native::new("main", &[("p", "p")]);
        let bucket = marlin::port::bucket_for(width).unwrap();
        let sent = value_of(bucket, 0xA5A5_A5A5_A5A5_A5A5);
        let call = model.pin("p", sent).unwrap();
        match &call {
            NativeCall::Pin { symbol, handle, value } => {
                assert_eq!(symbol, "ffi_Vmain_pin_p");
                assert_eq!(*handle, 7);
                assert_eq!(*value, sent);
            }
            other => panic!("unexpected {:?}", other),
        }
        native.perform(&call);
        model.complete_pin("p", sent, Ok(())).unwrap();
        native.perform(&model.eval());
        let call = model.read("p").unwrap();
        match &call {
            NativeCall::Read { symbol, handle, bucket: asked } => {
                assert_eq!(symbol, "ffi_Vmain_read_p");
                assert_eq!(*handle, 7);
                assert_eq!(*asked, bucket);
            }
            other => panic!("unexpected {:?}", other),
        }
        let reply = native.perform(&call).unwrap();
        assert_eq!(model.complete_read("p", Ok(reply)).unwrap(), sent);
        for other in [WidthBucket::U8, WidthBucket::U16, WidthBucket::U32, WidthBucket::U64] {
            if other != bucket {
                match model.pin("p", value_of(other, 1)) {
                    Err(DynamicVerilatedModelError::InvalidPortWidth {
                        top_module,
                        port,
                        width: reported,
                        attempted_lower,
                        attempted_higher,
                    }) => {
                        assert_eq!(top_module, "main");
                        assert_eq!(port, "p");
                        assert_eq!(reported, width);
                        assert_eq!(attempted_lower, other.lower());
                        assert_eq!(attempted_higher, other.bits());
                    }
                    other => panic!("unexpected {:?}", other),
                }
            }
        }
    }
}

#[test]
fn width_nine_takes_sixteen_bits_only() {
    let ports = vec![port("nine", 8, 0, PortDirection::Inout)];
    let mut model = DynamicVerilatedModel::new("main", &ports, 1, 0).unwrap();
    assert!(model.pin("nine", VerilatorValue::SData(300)).is_ok());
    match model.pin("nine", VerilatorValue::CData(3)) {
        Err(e) => {
            assert!(matches!(
                e,
                DynamicVerilatedModelError::InvalidPortWidth {
                    width: 9,
                    attempted_lower: 1,
                    attempted_higher: 8,
                    ..
                }
            ));
            assert_eq!(
                e.message(),
                "Port nine on verilated module main has width 9, but used as if it was in the 1 to 8 width range"
            );
        }
        Ok(_) => panic!("accepted"),
    }
    assert!(matches!(
        model.pin("nine", VerilatorValue::IData(3)),
        Err(DynamicVerilatedModelError::InvalidPortWidth {
            attempted_lower: 17,
            attempted_higher: 32,
            ..
        })
    ));
    assert!(matches!(
        model.complete_read("nine", Ok(VerilatorValue::CData(3))),
        Err(DynamicVerilatedModelError::InvalidPortWidth { width: 9, .. })
    ));
    assert_eq!(
        model.complete_read("nine", Ok(VerilatorValue::SData(3))).unwrap(),
        VerilatorValue::SData(3)
    );
}

#[test]
fn directions_are_enforced() {
    let ports = vec![
        port("in", 7, 0, PortDirection::Input),
        port("out", 7, 0, PortDirection::Output),
    ];
    let mut model = DynamicVerilatedModel::new("main", &ports, 1, 0).unwrap();
    match model.read("in") {
        Err(e) => {
            match &e {
                DynamicVerilatedModelError::InvalidPortDirection {
                    top_module,
                    port,
                    direction,
                    attempted_direction,
                } => {
                    assert_eq!(top_module, "main");
                    assert_eq!(port, "in");
                    assert_eq!(*direction, PortDirection::Input);
                    assert_eq!(*attempted_direction, PortDirection::Output);
                }
                other => panic!("unexpected {:?}", other),
            }
            assert_eq!(
                e.message(),
                "Port in on verilated module main is an input port, but was used as an output port"
            );
        }
        Ok(_) => panic!("accepted"),
    }
    for value in [VerilatorValue::CData(1), VerilatorValue::QData(1)] {
        match model.pin("out", value) {
            Err(DynamicVerilatedModelError::InvalidPortDirection {
                port,
                direction,
                attempted_direction,
                ..
            }) => {
                assert_eq!(port, "out");
                assert_eq!(direction, PortDirection::Output);
                assert_eq!(attempted_direction, PortDirection::Input);
            }
            other => panic!("unexpected {:?}", other),
        }
    }
    assert!(model.read("out").is_ok());
    assert!(model.pin("in", VerilatorValue::CData(1)).is_ok());
    assert!(matches!(
        model.complete_pin("out", VerilatorValue::CData(1), Ok(())),
        Err(DynamicVerilatedModelError::InvalidPortDirection { .. })
    ));
}

#[test]
fn unknown_port_names_port_and_module() {
    let ports = vec![port("out", 7, 0, PortDirection::Output)];
    let mut model = DynamicVerilatedModel::new("main", &ports, 1, 0).unwrap();
    match model.read("nonexistent_port") {
        Err(e) => {
            match &e {
                DynamicVerilatedModelError::NoSuchPort { top_module, port, source } => {
                    assert_eq!(top_module, "main");
                    assert_eq!(port, "nonexistent_port");
                    assert_eq!(*source, None);
                }
                other => panic!("unexpected {:?}", other),
            }
            assert_eq!(
                e.message(),
                "Port nonexistent_port not found on verilated module main: did you forget to specify it in the runtime `create_dyn_model` constructor?: None"
            );
        }
        Ok(_) => panic!("accepted"),
    }
    assert!(matches!(
        model.pin("nonexistent_port", VerilatorValue::CData(0)),
        Err(DynamicVerilatedModelError::NoSuchPort { .. })
    ));
    match model.complete_read("out", Err("undefined symbol: ffi_Vmain_read_out".to_string())) {
        Err(e) => {
            match &e {
                DynamicVerilatedModelError::NoSuchPort { top_module, port, source } => {
                    assert_eq!(top_module, "main");
                    assert_eq!(port, "out");
                    assert_eq!(
                        source.as_deref(),
                        Some("undefined symbol: ffi_Vmain_read_out")
                    );
                }
                other => panic!("unexpected {:?}", other),
            }
            assert!(e.message().ends_with(": Some(undefined symbol: ffi_Vmain_read_out)"));
        }
        Ok(_) => panic!("accepted"),
    }
}

#[test]
fn later_declaration_of_a_name_counts() {
    let ports = vec![
        port("p", 7, 0, PortDirection::Input),
        port("p", 15, 0, PortDirection::Output),
    ];
    let model = DynamicVerilatedModel::new("main", &ports, 1, 0).unwrap();
    assert!(matches!(
        model.read("p"),
        Ok(NativeCall::Read { bucket: WidthBucket::U16, .. })
    ));
    assert_eq!(model.name(), "main");
    assert_eq!(model.handle(), 1);
    assert_eq!(model.library(), 0);
}

#[test]
fn dynamic_model_validates_its_signature() {
    let wide = vec![port("w", 64, 0, PortDirection::Input)];
    assert!(matches!(
        DynamicVerilatedModel::new("main", &wide, 1, 0),
        Err(RuntimeError::PortTooWide { .. })
    ));
    assert!(matches!(
        DynamicVerilatedModel::new("ma in", &vec![], 1, 0),
        Err(RuntimeError::EscapedModuleName { .. })
    ));
}

#[test]
fn eval_writes_then_evaluates_then_reads() {
    let ports = vec![
        port("b", 7, 0, PortDirection::Output),
        port("a", 7, 0, PortDirection::Input),
        port("c", 15, 0, PortDirection::Inout),
        port("d", 31, 0, PortDirection::Output),
    ];
    let mut model = VerilatedModel::new("main", "src/main.sv", &ports, None, 3, 0, false).unwrap();
    let mut native = Native::new("main", &[("a", "b"), ("c", "c")]);
    model.pin("a", VerilatorValue::CData(5)).unwrap();
    assert_eq!(model.read("b").unwrap(), VerilatorValue::CData(0));
    let calls = model.eval();
    assert_eq!(calls.len(), 6);
    let replies = native.perform_all(&calls);
    assert_eq!(native.seen, vec!["pin a", "pin c", "eval", "read b", "read c", "read d"]);
    assert_eq!(model.read("b").unwrap(), VerilatorValue::CData(0));
    model.finish_eval(&replies).unwrap();
    assert_eq!(model.read("b").unwrap(), VerilatorValue::CData(5));
    assert_eq!(model.read("c").unwrap(), VerilatorValue::SData(0));
    assert_eq!(model.read("d").unwrap(), VerilatorValue::IData(0));
    assert_eq!(model.value(1), Some(VerilatorValue::CData(5)));
    assert_eq!(model.value(4), None);
}

#[test]
fn eval_ordering_scenario() {
    let ports = vec![port("A", 7, 0, PortDirection::Input), port("B", 7, 0, PortDirection::Output)];
    let mut model = VerilatedModel::new("wire", "wire.sv", &ports, None, 1, 0, false).unwrap();
    let mut native = Native::new("wire", &[("A", "B")]);
    model.pin("A", 5u8.into()).unwrap();
    assert_eq!(model.read("B").unwrap(), 0u8.into());
    let replies = native.perform_all(&model.eval());
    model.finish_eval(&replies).unwrap();
    assert_eq!(model.read("B").unwrap(), 5u8.into());
    assert_eq!(native.evaluations, 1);
}

#[test]
fn dynamic_eval_ordering_scenario() {
    let ports = vec![
        port("medium_input", 31, 0, PortDirection::Input),
        port("medium_output", 31, 0, PortDirection::Output),
    ];
    let mut model = DynamicVerilatedModel::new("main", &ports, 1, 0).unwrap();
    let mut native = Native::new("main", &[("medium_input", "medium_output")]);
    let call = model.pin("medium_input", u32::MAX.into()).unwrap();
    native.perform(&call);
    let reply = native.perform(&model.read("medium_output").unwrap()).unwrap();
    assert_eq!(model.complete_read("medium_output", Ok(reply)).unwrap(), 0u32.into());
    native.perform(&model.eval());
    let reply = native.perform(&model.read("medium_output").unwrap()).unwrap();
    assert_eq!(model.complete_read("medium_output", Ok(reply)).unwrap(), u32::MAX.into());
}

#[test]
fn finish_eval_refuses_wrong_replies() {
    let ports = vec![port("a", 7, 0, PortDirection::Input), port("b", 8, 0, PortDirection::Output)];
    let mut model = VerilatedModel::new("main", "main.sv", &ports, None, 1, 0, false).unwrap();
    assert!(matches!(model.finish_eval(&vec![]), Err(RuntimeError::UnexpectedEvent)));
    assert!(matches!(
        model.finish_eval(&vec![VerilatorValue::CData(1)]),
        Err(RuntimeError::UnexpectedEvent)
    ));
    assert!(matches!(
        model.finish_eval(&vec![VerilatorValue::SData(1), VerilatorValue::SData(2)]),
        Err(RuntimeError::UnexpectedEvent)
    ));
    assert_eq!(model.read("b").unwrap(), VerilatorValue::SData(0));
    model.finish_eval(&vec![VerilatorValue::SData(257)]).unwrap();
    assert_eq!(model.read("b").unwrap(), VerilatorValue::SData(257));
}

#[test]
fn static_access_by_name_follows_the_rules() {
    let ports = vec![port("a", 8, 0, PortDirection::Input), port("b", 7, 0, PortDirection::Output)];
    let mut model = VerilatedModel::new("main", "main.sv", &ports, None, 1, 0, false).unwrap();
    assert!(matches!(
        model.read("a"),
        Err(DynamicVerilatedModelError::InvalidPortDirection { .. })
    ));
    assert!(matches!(
        model.pin("b", VerilatorValue::CData(1)),
        Err(DynamicVerilatedModelError::InvalidPortDirection { .. })
    ));
    assert!(matches!(
        model.pin("a", VerilatorValue::CData(1)),
        Err(DynamicVerilatedModelError::InvalidPortWidth {
            width: 9,
            attempted_lower: 1,
            attempted_higher: 8,
            ..
        })
    ));
    assert!(matches!(model.read("x"), Err(DynamicVerilatedModelError::NoSuchPort { .. })));
    assert!(matches!(
        model.pin("x", VerilatorValue::CData(1)),
        Err(DynamicVerilatedModelError::NoSuchPort { .. })
    ));
    model.pin("a", VerilatorValue::SData(400)).unwrap();
    assert_eq!(model.value(0), Some(VerilatorValue::SData(400)));
    assert_eq!(model.name(), "main");
    assert_eq!(model.source_path(), "main.sv");
    assert_eq!(model.ports().len(), 2);
    assert_eq!(model.model(), 1);
    assert_eq!(model.library(), 0);
}

#[test]
fn tick_scenario() {
    let ports = vec![
        port("q", 7, 0, PortDirection::Output),
        port("clk", 0, 0, PortDirection::Input),
        port("d", 7, 0, PortDirection::Input),
    ];
    let mut model =
        VerilatedModel::new("reg", "reg.sv", &ports, Some("clk"), 1, 0, false).unwrap();
    let mut native = Native::new("reg", &[("d", "q")]);
    assert_eq!(model.value(1), Some(VerilatorValue::CData(0)));
    model.pin("d", 9u8.into()).unwrap();
    let (phase, calls) = model.tick(TickPhase::Start, &vec![]).unwrap();
    assert_eq!(phase, TickPhase::High);
    assert_eq!(model.value(1), Some(VerilatorValue::CData(1)));
    assert!(calls.iter().any(|c| matches!(
        c,
        NativeCall::Pin { symbol, value: VerilatorValue::CData(1), .. } if symbol == "ffi_Vreg_pin_clk"
    )));
    let replies = native.perform_all(&calls);
    let (phase, calls) = model.tick(phase, &replies).unwrap();
    assert_eq!(phase, TickPhase::Low);
    assert!(calls.iter().any(|c| matches!(
        c,
        NativeCall::Pin { symbol, value: VerilatorValue::CData(0), .. } if symbol == "ffi_Vreg_pin_clk"
    )));
    let replies = native.perform_all(&calls);
    let (phase, calls) = model.tick(phase, &replies).unwrap();
    assert_eq!(phase, TickPhase::Finished);
    assert!(calls.is_empty());
    assert_eq!(native.evaluations, 2);
    assert_eq!(model.value(1), Some(VerilatorValue::CData(0)));
    assert_eq!(model.read("q").unwrap(), VerilatorValue::CData(9));
    assert!(matches!(
        model.tick(TickPhase::Finished, &vec![]),
        Err(RuntimeError::UnexpectedEvent)
    ));
    assert!(matches!(model.tick(TickPhase::High, &vec![]), Err(RuntimeError::UnexpectedEvent)));
}

#[test]
fn models_without_clock_cannot_tick() {
    let ports = vec![port("clk", 0, 0, PortDirection::Output)];
    let mut model =
        VerilatedModel::new("main", "main.sv", &ports, Some("clk"), 1, 0, false).unwrap();
    match model.tick(TickPhase::Start, &vec![]) {
        Err(RuntimeError::NoClockPort { module }) => assert_eq!(module, "main"),
        other => panic!("unexpected {:?}", other),
    }
    let mut plain = VerilatedModel::new("main", "main.sv", &ports, None, 1, 0, false).unwrap();
    assert!(matches!(
        plain.tick(TickPhase::Start, &vec![]),
        Err(RuntimeError::NoClockPort { .. })
    ));
}

#[test]
fn required_symbols_of_a_model() {
    let ports = vec![
        port("a", 7, 0, PortDirection::Input),
        port("b", 7, 0, PortDirection::Output),
        port("c", 7, 0, PortDirection::Inout),
    ];
    assert_eq!(
        required_symbols("main", &ports, false),
        vec![
            "ffi_delete_Vmain",
            "ffi_new_Vmain",
            "ffi_Vmain_eval",
            "ffi_Vmain_pin_a",
            "ffi_Vmain_read_b",
            "ffi_Vmain_pin_c",
            "ffi_Vmain_read_c",
        ]
    );
    assert_eq!(
        required_symbols("main", &vec![], true),
        vec![
            "ffi_delete_Vmain",
            "ffi_new_Vmain",
            "ffi_Vmain_eval",
            "ffi_Vmain_open_trace",
            "ffi_VerilatedVcdC_dump",
            "ffi_VerilatedVcdC_open_next",
            "ffi_VerilatedVcdC_flush",
            "ffi_VerilatedVcdC_close_and_delete",
        ]
    );
}

#[test]
fn traces() {
    let mut vcd = new_vcd(11);
    match vcd.dump(42) {
        Some(NativeCall::VcdDump { symbol, vcd, timestamp }) => {
            assert_eq!(symbol, "ffi_VerilatedVcdC_dump");
            assert_eq!(vcd, 11);
            assert_eq!(timestamp, 42);
        }
        other => panic!("unexpected {:?}", other),
    }
    match vcd.open_next(true) {
        Some(NativeCall::VcdOpenNext { symbol, vcd, increment_filename }) => {
            assert_eq!(symbol, "ffi_VerilatedVcdC_open_next");
            assert_eq!(vcd, 11);
            assert!(increment_filename);
        }
        other => panic!("unexpected {:?}", other),
    }
    match vcd.flush() {
        Some(NativeCall::VcdFlush { symbol, vcd }) => {
            assert_eq!(symbol, "ffi_VerilatedVcdC_flush");
            assert_eq!(vcd, 11);
        }
        other => panic!("unexpected {:?}", other),
    }
    match vcd.close() {
        Some(NativeCall::VcdClose { symbol, vcd }) => {
            assert_eq!(symbol, "ffi_VerilatedVcdC_close_and_delete");
            assert_eq!(vcd, 11);
        }
        other => panic!("unexpected {:?}", other),
    }
    let mut useless = new_vcd_useless();
    assert!(useless.dump(1).is_none());
    assert!(useless.open_next(false).is_none());
    assert!(useless.flush().is_none());
    assert!(useless.close().is_none());
}

#[test]
fn opening_a_trace() {
    let ports = vec![port("a", 7, 0, PortDirection::Input)];
    let mut traced = VerilatedModel::new("main", "main.sv", &ports, None, 5, 0, true).unwrap();
    assert!(!traced.has_open_vcd());
    match traced.open_vcd("trace.vcd") {
        Some(NativeCall::OpenTrace { symbol, handle, path }) => {
            assert_eq!(symbol, "ffi_Vmain_open_trace");
            assert_eq!(handle, 5);
            assert_eq!(path, "trace.vcd");
        }
        other => panic!("unexpected {:?}", other),
    }
    assert!(traced.has_open_vcd());
    let mut plain = VerilatedModel::new("main", "main.sv", &ports, None, 5, 0, false).unwrap();
    assert!(plain.open_vcd("trace.vcd").is_none());
    assert!(!plain.has_open_vcd());
    assert!(plain.open_vcd("trace.vcd").is_none());
}

#[test]
fn ledger_destroys_each_instance_once() {
    let mut ledger = DeallocationLedger::new();
    assert_eq!(ledger.len(), 0);
    ledger.record(10, 0, "ffi_delete_Va".to_string());
    ledger.record(20, 0, "ffi_delete_Va".to_string());
    ledger.record(10, 1, "ffi_delete_Vb".to_string());
    assert_eq!(ledger.len(), 3);
    match ledger.release(0, 10) {
        Some(NativeCall::Destroy { symbol, handle }) => {
            assert_eq!(symbol, "ffi_delete_Va");
            assert_eq!(handle, 10);
        }
        other => panic!("unexpected {:?}", other),
    }
    assert!(ledger.release(0, 10).is_none());
    assert!(ledger.release(2, 10).is_none());
    assert_eq!(ledger.len(), 2);
    let calls = ledger.drain();
    assert_eq!(calls.len(), 2);
    assert_eq!(calls[0].library, 0);
    assert_eq!(calls[1].library, 1);
    assert!(matches!(&calls[0].call, NativeCall::Destroy { symbol, handle: 20 } if symbol == "ffi_delete_Va"));
    assert!(matches!(&calls[1].call, NativeCall::Destroy { symbol, handle: 10 } if symbol == "ffi_delete_Vb"));
    assert_eq!(ledger.len(), 0);
    assert!(ledger.drain().is_empty());
    assert!(ledger.release(1, 10).is_none());
}

fn found(symbols: Vec<String>) -> Vec<SymbolLookup> {
    symbols.into_iter().map(|symbol| SymbolLookup { symbol, failure: None }).collect()
}

/// A runtime in which the library of the module `main` is loaded.
fn loaded_runtime(ports: &Vec<PortDescriptor>) -> (VerilatorRuntime, LibraryLoad) {
    let mut runtime = VerilatorRuntime::new(
        "artifacts",
        &vec![SourceFile { path: "main.sv".to_string(), is_file: true }],
        &vec![],
        vec![],
        VerilatorRuntimeOptions::default(),
    )
    .unwrap();
    let load = runtime
        .prepare_library("main", "main.sv", ports, &VerilatedModelConfig::default())
        .unwrap();
    let (_, action) = runtime.build_or_retrieve_library(
        &load,
        LoadPhase::Opening { rebuilt: true },
        LoadEvent::Completed,
    );
    assert!(matches!(action, LoadAction::Done { library: 0, newly_loaded: true, .. }));
    (runtime, load)
}

#[test]
fn runtime_records_and_releases_models() {
    let ports = vec![port("clk", 0, 0, PortDirection::Input), port("q", 3, 0, PortDirection::Output)];
    let (mut runtime, load) = loaded_runtime(&ports);
    let symbols = VerilatorRuntime::model_symbols("main");
    assert_eq!(symbols, vec!["ffi_new_Vmain", "ffi_delete_Vmain", "ffi_Vmain_eval"]);
    let (construction, call) = runtime.plan_dyn_model(&load, &found(symbols.clone())).unwrap();
    assert!(matches!(&call, NativeCall::Construct { symbol } if symbol == "ffi_new_Vmain"));
    assert_eq!(construction.library(), 0);
    let dynamic = runtime.create_dyn_model(construction, 100).unwrap();
    assert_eq!(dynamic.handle(), 100);
    assert_eq!(dynamic.library(), 0);
    let (construction, call) = runtime
        .plan_model(&load, &found(required_symbols("main", &ports, false)))
        .unwrap();
    assert!(matches!(&call, NativeCall::Construct { symbol } if symbol == "ffi_new_Vmain"));
    let fixed = runtime.create_model(construction, Some("clk"), 200).unwrap();
    assert_eq!(fixed.model(), 200);
    assert_eq!(fixed.source_path(), "main.sv");
    let (construction, _) = runtime.plan_dyn_model(&load, &found(symbols)).unwrap();
    let forgotten = runtime.create_dyn_model(construction, 300).unwrap();
    assert_eq!(forgotten.handle(), 300);
    assert_eq!(runtime.outstanding_models(), 3);
    match runtime.release_model(0, 200) {
        Some(NativeCall::Destroy { symbol, handle }) => {
            assert_eq!(symbol, "ffi_delete_Vmain");
            assert_eq!(handle, 200);
        }
        other => panic!("unexpected {:?}", other),
    }
    assert!(runtime.release_model(0, 200).is_none());
    assert_eq!(runtime.outstanding_models(), 2);
    let calls = runtime.drop_models();
    let handles: Vec<(usize, usize)> = calls
        .iter()
        .map(|placed| match &placed.call {
            NativeCall::Destroy { handle, .. } => (placed.library, *handle),
            other => panic!("unexpected {:?}", other),
        })
        .collect();
    assert_eq!(handles, vec![(0, 100), (0, 300)]);
    assert_eq!(runtime.outstanding_models(), 0);
    assert!(runtime.drop_models().is_empty());
}

#[test]
fn missing_symbols_stop_the_construction() {
    let ports = vec![port("clk", 0, 0, PortDirection::Input), port("q", 3, 0, PortDirection::Output)];
    let (mut runtime, load) = loaded_runtime(&ports);
    for missing in 0..3 {
        let mut lookups = found(VerilatorRuntime::model_symbols("main"));
        lookups[missing].failure = Some("undefined symbol".to_string());
        if missing == 0 {
            lookups[2].failure = Some("also undefined".to_string());
        }
        match runtime.plan_dyn_model(&load, &lookups) {
            Err(RuntimeError::SymbolResolution { module, symbol, detail }) => {
                assert_eq!(module, "main");
                assert_eq!(symbol, lookups[missing].symbol);
                assert_eq!(detail, "undefined symbol");
            }
            Err(other) => panic!("unexpected {:?}", other),
            Ok(_) => panic!("planned"),
        }
    }
    let mut lookups = found(required_symbols("main", &ports, false));
    lookups[0].failure = Some("no destructor".to_string());
    match runtime.plan_model(&load, &lookups) {
        Err(RuntimeError::SymbolResolution { module, symbol, detail }) => {
            assert_eq!(module, "main");
            assert_eq!(symbol, "ffi_delete_Vmain");
            assert_eq!(detail, "no destructor");
        }
        Err(other) => panic!("unexpected {:?}", other),
        Ok(_) => panic!("planned"),
    }
    let mut lookups = found(required_symbols("main", &ports, false));
    let last = lookups.len() - 1;
    lookups[last].failure = Some("no getter".to_string());
    assert!(matches!(
        runtime.plan_model(&load, &lookups),
        Err(RuntimeError::SymbolResolution { symbol, .. }) if symbol == "ffi_Vmain_read_q"
    ));
    assert_eq!(runtime.outstanding_models(), 0);
    assert!(runtime.drop_models().is_empty());
}

#[test]
fn construction_needs_the_right_lookups_and_a_loaded_library() {
    let ports = vec![port("q", 3, 0, PortDirection::Output)];
    let (mut runtime, load) = loaded_runtime(&ports);
    let symbols = VerilatorRuntime::model_symbols("main");
    assert!(matches!(
        runtime.plan_dyn_model(&load, &vec![]),
        Err(RuntimeError::UnexpectedEvent)
    ));
    let mut swapped = found(symbols.clone());
    swapped.swap(0, 1);
    assert!(matches!(
        runtime.plan_dyn_model(&load, &swapped),
        Err(RuntimeError::UnexpectedEvent)
    ));
    assert!(matches!(
        runtime.plan_model(&load, &found(symbols.clone())),
        Err(RuntimeError::UnexpectedEvent)
    ));
    let unloaded = runtime
        .prepare_library("other", "main.sv", &ports, &VerilatedModelConfig::default())
        .unwrap();
    assert!(matches!(
        runtime.plan_dyn_model(&unloaded, &found(VerilatorRuntime::model_symbols("other"))),
        Err(RuntimeError::UnexpectedEvent)
    ));
    let mut bad = load.clone();
    bad.build.ports.push(port("w", 99, 0, PortDirection::Input));
    assert!(matches!(
        runtime.plan_dyn_model(&bad, &found(symbols)),
        Err(RuntimeError::PortTooWide { .. })
    ));
    assert_eq!(runtime.outstanding_models(), 0);
    runtime.libraries_are_distinct();
}
