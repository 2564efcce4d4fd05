//! Calls into a loaded library. The library decides nothing here: a call is
//! a value that names the symbol and carries the arguments, and whoever
//! holds the library performs it.

use crate::dynamic::VerilatorValue;
use crate::port::WidthBucket;
use vstd::prelude::*;
use vstd::string::*;

verus! {

/// One call into a loaded library.
#[derive(Debug, Clone)]
pub enum NativeCall {
    /// Make an instance; the reply is its handle.
    Construct { symbol: String },
    /// Evaluate the instance.
    Evaluate { symbol: String, handle: usize },
    /// Destroy the instance.
    Destroy { symbol: String, handle: usize },
    /// Drive a port with `value`, passed as the integer type of the value.
    Pin { symbol: String, handle: usize, value: VerilatorValue },
    /// Observe a port, whose value comes back as the integer type `bucket`.
    Read { symbol: String, handle: usize, bucket: WidthBucket },
    /// Hand the library its `count` host functions, in their order.
    InitializeCallbacks { symbol: String, count: usize },
    /// Switch waveform tracing on for the library.
    TraceEverOn { symbol: String },
    /// Open a waveform trace on the instance; the reply is its handle.
    OpenTrace { symbol: String, handle: usize, path: String },
    /// Write one cycle of the trace.
    VcdDump { symbol: String, vcd: usize, timestamp: u64 },
    /// Continue the trace in a new file.
    VcdOpenNext { symbol: String, vcd: usize, increment_filename: bool },
    /// Flush the trace.
    VcdFlush { symbol: String, vcd: usize },
    /// Close the trace and free it.
    VcdClose { symbol: String, vcd: usize },
}

/// What a [`NativeCall`] holds.
pub ghost enum NativeCallView {
    Construct { symbol: Seq<char> },
    Evaluate { symbol: Seq<char>, handle: usize },
    Destroy { symbol: Seq<char>, handle: usize },
    Pin { symbol: Seq<char>, handle: usize, value: VerilatorValue },
    Read { symbol: Seq<char>, handle: usize, bucket: WidthBucket },
    InitializeCallbacks { symbol: Seq<char>, count: int },
    TraceEverOn { symbol: Seq<char> },
    OpenTrace { symbol: Seq<char>, handle: usize, path: Seq<char> },
    VcdDump { symbol: Seq<char>, vcd: usize, timestamp: u64 },
    VcdOpenNext { symbol: Seq<char>, vcd: usize, increment_filename: bool },
    VcdFlush { symbol: Seq<char>, vcd: usize },
    VcdClose { symbol: Seq<char>, vcd: usize },
}

impl View for NativeCall {
    type V = NativeCallView;

    open spec fn view(&self) -> NativeCallView {
        match self {
            NativeCall::Construct { symbol } => NativeCallView::Construct { symbol: symbol@ },
            NativeCall::Evaluate { symbol, handle } => NativeCallView::Evaluate {
                symbol: symbol@,
                handle: *handle,
            },
            NativeCall::Destroy { symbol, handle } => NativeCallView::Destroy {
                symbol: symbol@,
                handle: *handle,
            },
            NativeCall::Pin { symbol, handle, value } => NativeCallView::Pin {
                symbol: symbol@,
                handle: *handle,
                value: *value,
            },
            NativeCall::Read { symbol, handle, bucket } => NativeCallView::Read {
                symbol: symbol@,
                handle: *handle,
                bucket: *bucket,
            },
            NativeCall::InitializeCallbacks {
                symbol,
                count,
            } => NativeCallView::InitializeCallbacks { symbol: symbol@, count: *count as int },
            NativeCall::TraceEverOn { symbol } => NativeCallView::TraceEverOn { symbol: symbol@ },
            NativeCall::OpenTrace { symbol, handle, path } => NativeCallView::OpenTrace {
                symbol: symbol@,
                handle: *handle,
                path: path@,
            },
            NativeCall::VcdDump { symbol, vcd, timestamp } => NativeCallView::VcdDump {
                symbol: symbol@,
                vcd: *vcd,
                timestamp: *timestamp,
            },
            NativeCall::VcdOpenNext {
                symbol,
                vcd,
                increment_filename,
            } => NativeCallView::VcdOpenNext {
                symbol: symbol@,
                vcd: *vcd,
                increment_filename: *increment_filename,
            },
            NativeCall::VcdFlush { symbol, vcd } => NativeCallView::VcdFlush {
                symbol: symbol@,
                vcd: *vcd,
            },
            NativeCall::VcdClose { symbol, vcd } => NativeCallView::VcdClose {
                symbol: symbol@,
                vcd: *vcd,
            },
        }
    }
}

impl DeepView for NativeCall {
    type V = NativeCallView;

    open spec fn deep_view(&self) -> NativeCallView {
        self@
    }
}

} // verus!
