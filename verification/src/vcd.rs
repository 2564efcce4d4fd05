//! Waveform traces of a model.

use crate::native::{NativeCall, NativeCallView};
use crate::symbols::{
    spec_vcd_close_symbol, spec_vcd_dump_symbol, spec_vcd_flush_symbol,
    spec_vcd_open_next_symbol, vcd_close_symbol, vcd_dump_symbol, vcd_flush_symbol,
    vcd_open_next_symbol,
};
use vstd::prelude::*;
use vstd::string::*;

verus! {

/// A waveform trace. A model that was built without tracing hands out a
/// trace that does nothing.
#[derive(Debug)]
pub struct Vcd {
    inner: Option<usize>,
}

impl View for Vcd {
    type V = Option<usize>;

    /// The handle of the native trace, if there is one.
    closed spec fn view(&self) -> Option<usize> {
        self.inner
    }
}

/// The trace whose native handle is `handle`.
pub fn new_vcd(handle: usize) -> (vcd: Vcd)
    ensures
        vcd@ == Some(handle),
{
    Vcd { inner: Some(handle) }
}

/// A trace that does nothing.
pub fn new_vcd_useless() -> (vcd: Vcd)
    ensures
        vcd@ is None,
{
    Vcd { inner: None }
}

impl Vcd {
    /// The call that writes one cycle of dump data at `timestamp`; none
    /// for a trace that does nothing. It is meant to follow an evaluation.
    pub fn dump(&mut self, timestamp: u64) -> (call: Option<NativeCall>)
        ensures
            final(self)@ == old(self)@,
            old(self)@ is None ==> call is None,
            old(self)@ matches Some(handle) ==> call is Some && call->0@ == (
            NativeCallView::VcdDump { symbol: spec_vcd_dump_symbol(), vcd: handle, timestamp }),
    {
        match self.inner {
            Some(handle) => Some(
                NativeCall::VcdDump { symbol: vcd_dump_symbol(), vcd: handle, timestamp },
            ),
            None => None,
        }
    }

    /// The call that continues the dump in a new file; none for a trace
    /// that does nothing. Only the first file holds the header.
    pub fn open_next(&mut self, increment_filename: bool) -> (call: Option<NativeCall>)
        ensures
            final(self)@ == old(self)@,
            old(self)@ is None ==> call is None,
            old(self)@ matches Some(handle) ==> call is Some && call->0@ == (
            NativeCallView::VcdOpenNext {
                symbol: spec_vcd_open_next_symbol(),
                vcd: handle,
                increment_filename,
            }),
    {
        match self.inner {
            Some(handle) => Some(
                NativeCall::VcdOpenNext {
                    symbol: vcd_open_next_symbol(),
                    vcd: handle,
                    increment_filename,
                },
            ),
            None => None,
        }
    }

    /// The call that flushes the dump; none for a trace that does nothing.
    pub fn flush(&mut self) -> (call: Option<NativeCall>)
        ensures
            final(self)@ == old(self)@,
            old(self)@ is None ==> call is None,
            old(self)@ matches Some(handle) ==> call is Some && call->0@ == (
            NativeCallView::VcdFlush { symbol: spec_vcd_flush_symbol(), vcd: handle }),
    {
        match self.inner {
            Some(handle) => Some(NativeCall::VcdFlush { symbol: vcd_flush_symbol(), vcd: handle }),
            None => None,
        }
    }

    /// Gives the trace up. The call closes the native trace and frees it;
    /// there is none for a trace that does nothing.
    pub fn close(self) -> (call: Option<NativeCall>)
        ensures
            self@ is None ==> call is None,
            self@ matches Some(handle) ==> call is Some && call->0@ == (NativeCallView::VcdClose {
                symbol: spec_vcd_close_symbol(),
                vcd: handle,
            }),
    {
        match self.inner {
            Some(handle) => Some(NativeCall::VcdClose { symbol: vcd_close_symbol(), vcd: handle }),
            None => None,
        }
    }
}

} // verus!
