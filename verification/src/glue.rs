//! The C++ source that exports a compiled model through plain functions:
//! one to make an instance, one to evaluate it, one to destroy it, and one
//! per port and direction of access.

use crate::error::RuntimeError;
use crate::port::{PortDescriptor, PortDescriptorView, PortDirection, WidthBucket};
use crate::signature::{lemma_ports_accepted, ports_error, validate_ports};
use crate::symbols::{
    constructor_symbol, destructor_symbol, evaluator_symbol, open_trace_symbol, pin_symbol,
    read_symbol, spec_constructor_symbol, spec_destructor_symbol, spec_evaluator_symbol,
    spec_open_trace_symbol, spec_pin_symbol, spec_read_symbol, spec_trace_ever_on_symbol,
    spec_vcd_close_symbol, spec_vcd_dump_symbol, spec_vcd_flush_symbol, spec_vcd_open_next_symbol,
    trace_ever_on_symbol, vcd_close_symbol, vcd_dump_symbol, vcd_flush_symbol,
    vcd_open_next_symbol,
};
use crate::text::{decimal, decimal_string};
use vstd::prelude::*;
use vstd::string::*;

verus! {

/// The first part of the name of the compiler's type macro for a port.
pub open spec fn macro_prefix(direction: PortDirection) -> Seq<char> {
    match direction {
        PortDirection::Input => "VL_IN"@,
        PortDirection::Output => "VL_OUT"@,
        PortDirection::Inout => "VL_INOUT"@,
    }
}

/// The second part of the name of the compiler's type macro for a port.
/// The 32-bit type has none.
pub open spec fn macro_suffix(bucket: WidthBucket) -> Seq<char> {
    match bucket {
        WidthBucket::U8 => "8"@,
        WidthBucket::U16 => "16"@,
        WidthBucket::U32 => ""@,
        WidthBucket::U64 => "64"@,
    }
}

/// The compiler's type macro applied to a port, with `name` in the place
/// of the declared variable.
pub open spec fn type_macro_text(port: PortDescriptorView, name: Seq<char>) -> Seq<char> {
    macro_prefix(port.direction) + macro_suffix(port.bucket()) + "("@ + name + ", "@ + decimal(
        port.msb as nat,
    ) + ", "@ + decimal(port.lsb as nat) + ")"@
}

/// The function that drives `port`.
pub open spec fn pin_wrapper_text(top: Seq<char>, port: PortDescriptorView) -> Seq<char> {
    "\n    void "@ + spec_pin_symbol(top, port.name) + "(V"@ + top + "* top, "@ + type_macro_text(
        port,
        "new_value"@,
    ) + ") {\n        top->"@ + port.name + " = new_value;\n    }\n            \n"@
}

/// The function that observes `port`.
pub open spec fn read_wrapper_text(top: Seq<char>, port: PortDescriptorView) -> Seq<char> {
    "\n    "@ + type_macro_text(port, "/* return value */"@) + " "@ + spec_read_symbol(
        top,
        port.name,
    ) + "(V"@ + top + "* top) {\n        return top->"@ + port.name + ";\n    }\n            \n"@
}

/// The functions of one port: a setter where the port can be driven, then
/// a getter where it can be observed.
pub open spec fn port_wrappers_text(top: Seq<char>, port: PortDescriptorView) -> Seq<char> {
    (if port.direction.writable() {
        pin_wrapper_text(top, port)
    } else {
        Seq::empty()
    }) + (if port.direction.readable() {
        read_wrapper_text(top, port)
    } else {
        Seq::empty()
    })
}

/// The functions of all ports, in the order of the ports.
pub open spec fn all_port_wrappers_text(
    top: Seq<char>,
    ports: Seq<PortDescriptorView>,
) -> Seq<char>
    decreases ports.len(),
{
    if ports.len() == 0 {
        Seq::empty()
    } else {
        all_port_wrappers_text(top, ports.drop_last()) + port_wrappers_text(top, ports.last())
    }
}

/// The includes that tracing needs.
pub open spec fn tracing_includes_text() -> Seq<char> {
    "#include \"verilated_vcd_c.h\"\n#include <stdint.h>\n"@
}

/// The includes of every glue file and the three functions that make,
/// evaluate and destroy an instance.
pub open spec fn lifecycle_text(top: Seq<char>) -> Seq<char> {
    "\n#include \"verilated.h\"\n#include \"V"@ + top + ".h\"\n\nextern \"C\" {\n    void* "@
        + spec_constructor_symbol(top) + "() {\n        return new V"@ + top
        + "{};\n    }\n\n    \n    void "@ + spec_evaluator_symbol(top) + "(V"@ + top
        + "* top) {\n        top->eval();\n    }\n\n    void "@ + spec_destructor_symbol(top)
        + "(V"@ + top + "* top) {\n        delete top;\n    }\n\n"@
}

/// The functions that open, advance, flush and close a waveform trace.
pub open spec fn tracing_text(top: Seq<char>) -> Seq<char> {
    "\n    void "@ + spec_trace_ever_on_symbol()
        + "(bool everOn) {\n        Verilated::traceEverOn(everOn);\n    }\n\n    VerilatedVcdC* "@
        + spec_open_trace_symbol(top) + "(V"@ + top
        + "* top, const char* path) {\n        VerilatedVcdC* vcd = new VerilatedVcdC;\n        top->trace(vcd, 99);\n        vcd->open(path);\n        return vcd;\n    }\n\n    void "@
        + spec_vcd_dump_symbol()
        + "(VerilatedVcdC* vcd, uint64_t timestamp) {\n        vcd->dump(timestamp);\n    }\n\n    void "@
        + spec_vcd_open_next_symbol()
        + "(VerilatedVcdC* vcd, bool increment_filename) {\n        vcd->openNext(increment_filename);\n    }\n\n    void "@
        + spec_vcd_flush_symbol()
        + "(VerilatedVcdC* vcd) {\n        vcd->flush();\n    }\n\n    void "@
        + spec_vcd_close_symbol()
        + "(VerilatedVcdC* vcd) {\n        vcd->close();\n        delete vcd;\n    }\n\n"@
}

/// The line that closes the glue file.
pub open spec fn closing_text() -> Seq<char> {
    "} // extern \"C\"\n"@
}

/// The whole glue source of a model with valid ports.
pub open spec fn ffi_text(
    top: Seq<char>,
    ports: Seq<PortDescriptorView>,
    enable_tracing: bool,
) -> Seq<char> {
    (if enable_tracing {
        tracing_includes_text()
    } else {
        Seq::empty()
    }) + lifecycle_text(top) + all_port_wrappers_text(top, ports) + (if enable_tracing {
        tracing_text(top)
    } else {
        Seq::empty()
    }) + closing_text()
}

fn type_macro(port: &PortDescriptor, bucket: WidthBucket, name: &str) -> (text: String)
    requires
        port@.valid(),
        bucket == port@.bucket(),
    ensures
        text@ == type_macro_text(port@, name@),
{
    let prefix = match port.direction {
        PortDirection::Input => "VL_IN",
        PortDirection::Output => "VL_OUT",
        PortDirection::Inout => "VL_INOUT",
    };
    let suffix = match bucket {
        WidthBucket::U8 => "8",
        WidthBucket::U16 => "16",
        WidthBucket::U32 => "",
        WidthBucket::U64 => "64",
    };
    let mut text = prefix.to_owned();
    text.append(suffix);
    text.append("(");
    text.append(name);
    text.append(", ");
    let msb = decimal_string(port.msb as u64);
    text.append(msb.as_str());
    text.append(", ");
    let lsb = decimal_string(port.lsb as u64);
    text.append(lsb.as_str());
    text.append(")");
    text
}

fn pin_wrapper(top: &str, port: &PortDescriptor, bucket: WidthBucket) -> (text: String)
    requires
        port@.valid(),
        bucket == port@.bucket(),
    ensures
        text@ == pin_wrapper_text(top@, port@),
{
    let mut text = "\n    void ".to_owned();
    let symbol = pin_symbol(top, port.name.as_str());
    text.append(symbol.as_str());
    text.append("(V");
    text.append(top);
    text.append("* top, ");
    let input_type = type_macro(port, bucket, "new_value");
    text.append(input_type.as_str());
    text.append(") {\n        top->");
    text.append(port.name.as_str());
    text.append(" = new_value;\n    }\n            \n");
    text
}

fn read_wrapper(top: &str, port: &PortDescriptor, bucket: WidthBucket) -> (text: String)
    requires
        port@.valid(),
        bucket == port@.bucket(),
    ensures
        text@ == read_wrapper_text(top@, port@),
{
    let mut text = "\n    ".to_owned();
    let return_type = type_macro(port, bucket, "/* return value */");
    text.append(return_type.as_str());
    text.append(" ");
    let symbol = read_symbol(top, port.name.as_str());
    text.append(symbol.as_str());
    text.append("(V");
    text.append(top);
    text.append("* top) {\n        return top->");
    text.append(port.name.as_str());
    text.append(";\n    }\n            \n");
    text
}

fn port_wrappers(top: &str, port: &PortDescriptor, bucket: WidthBucket) -> (text: String)
    requires
        port@.valid(),
        bucket == port@.bucket(),
    ensures
        text@ == port_wrappers_text(top@, port@),
{
    let mut text = if port.direction.is_writable() {
        pin_wrapper(top, port, bucket)
    } else {
        String::new()
    };
    if port.direction.is_readable() {
        let getter = read_wrapper(top, port, bucket);
        text.append(getter.as_str());
    } else {
        assert(text@ + Seq::<char>::empty() =~= text@);
    }
    text
}

fn lifecycle(top: &str) -> (text: String)
    ensures
        text@ == lifecycle_text(top@),
{
    let mut text = "\n#include \"verilated.h\"\n#include \"V".to_owned();
    text.append(top);
    text.append(".h\"\n\nextern \"C\" {\n    void* ");
    let constructor = constructor_symbol(top);
    text.append(constructor.as_str());
    text.append("() {\n        return new V");
    text.append(top);
    text.append("{};\n    }\n\n    \n    void ");
    let evaluator = evaluator_symbol(top);
    text.append(evaluator.as_str());
    text.append("(V");
    text.append(top);
    text.append("* top) {\n        top->eval();\n    }\n\n    void ");
    let destructor = destructor_symbol(top);
    text.append(destructor.as_str());
    text.append("(V");
    text.append(top);
    text.append("* top) {\n        delete top;\n    }\n\n");
    text
}

/// Builds the functions that give access to waveform tracing.
pub fn build_ffi_for_tracing(top_module: &str) -> (text: String)
    ensures
        text@ == tracing_text(top_module@),
{
    let mut text = "\n    void ".to_owned();
    let ever_on = trace_ever_on_symbol();
    text.append(ever_on.as_str());
    text.append(
        "(bool everOn) {\n        Verilated::traceEverOn(everOn);\n    }\n\n    VerilatedVcdC* ",
    );
    let open_trace = open_trace_symbol(top_module);
    text.append(open_trace.as_str());
    text.append("(V");
    text.append(top_module);
    text.append(
        "* top, const char* path) {\n        VerilatedVcdC* vcd = new VerilatedVcdC;\n        top->trace(vcd, 99);\n        vcd->open(path);\n        return vcd;\n    }\n\n    void ",
    );
    let dump = vcd_dump_symbol();
    text.append(dump.as_str());
    text.append(
        "(VerilatedVcdC* vcd, uint64_t timestamp) {\n        vcd->dump(timestamp);\n    }\n\n    void ",
    );
    let open_next = vcd_open_next_symbol();
    text.append(open_next.as_str());
    text.append(
        "(VerilatedVcdC* vcd, bool increment_filename) {\n        vcd->openNext(increment_filename);\n    }\n\n    void ",
    );
    let flush = vcd_flush_symbol();
    text.append(flush.as_str());
    text.append("(VerilatedVcdC* vcd) {\n        vcd->flush();\n    }\n\n    void ");
    let close = vcd_close_symbol();
    text.append(close.as_str());
    text.append("(VerilatedVcdC* vcd) {\n        vcd->close();\n        delete vcd;\n    }\n\n");
    text
}

fn all_port_wrappers(top: &str, ports: &Vec<PortDescriptor>) -> (text: String)
    requires
        forall|j: int| 0 <= j < ports.len() ==> (#[trigger] ports.deep_view()[j]).valid(),
    ensures
        text@ == all_port_wrappers_text(top@, ports.deep_view()),
{
    let ghost views = ports.deep_view();
    let mut text = String::new();
    let mut i: usize = 0;
    while i < ports.len()
        invariant
            i <= ports.len(),
            views == ports.deep_view(),
            forall|j: int| 0 <= j < views.len() ==> (#[trigger] views[j]).valid(),
            text@ == all_port_wrappers_text(top@, views.take(i as int)),
        decreases ports.len() - i,
    {
        proof {
            assert(views.take(i + 1).drop_last() =~= views.take(i as int));
            assert(views.take(i + 1).last() == ports[i as int]@);
            assert(views[i as int].valid());
        }
        let port = &ports[i];
        match port.bucket() {
            Some(bucket) => {
                let wrappers = port_wrappers(top, port, bucket);
                text.append(wrappers.as_str());
            },
            None => {
                assert(false);
            },
        }
        i = i + 1;
    }
    assert(views.take(ports.len() as int) =~= views);
    text
}

/// Writes the glue source of the model `top_module` with the signature
/// `ports`. Each port gets the integer type of its width. A port that
/// cannot be carried is an error, and no text is produced.
pub fn build_ffi(top_module: &str, ports: &Vec<PortDescriptor>, enable_tracing: bool) -> (outcome:
    Result<String, RuntimeError>)
    ensures
        outcome is Ok <==> ports_error(top_module@, ports.deep_view()) is None,
        outcome matches Err(e) ==> Some(e@) == ports_error(top_module@, ports.deep_view()),
        outcome matches Ok(text) ==> text@ == ffi_text(
            top_module@,
            ports.deep_view(),
            enable_tracing,
        ),
{
    match validate_ports(top_module, ports) {
        Err(e) => {
            return Err(e);
        },
        Ok(()) => {},
    }
    proof {
        lemma_ports_accepted(top_module@, ports.deep_view());
    }
    let mut text = if enable_tracing {
        "#include \"verilated_vcd_c.h\"\n#include <stdint.h>\n".to_owned()
    } else {
        String::new()
    };
    let head = lifecycle(top_module);
    text.append(head.as_str());
    let wrappers = all_port_wrappers(top_module, ports);
    text.append(wrappers.as_str());
    if enable_tracing {
        let tracing = build_ffi_for_tracing(top_module);
        text.append(tracing.as_str());
    } else {
        assert(text@ + Seq::<char>::empty() =~= text@);
    }
    text.append("} // extern \"C\"\n");
    Ok(text)
}

} // verus!
