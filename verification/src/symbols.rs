//! The names under which the generated glue exports a model, and under
//! which the runtime looks them up in the loaded library.

use crate::error::{RuntimeError, RuntimeErrorView};
use vstd::prelude::*;
use vstd::string::*;

verus! {

/// The symbol that makes an instance of the model `top`.
pub open spec fn spec_constructor_symbol(top: Seq<char>) -> Seq<char> {
    "ffi_new_V"@ + top
}

/// The symbol that destroys an instance of the model `top`.
pub open spec fn spec_destructor_symbol(top: Seq<char>) -> Seq<char> {
    "ffi_delete_V"@ + top
}

/// The symbol that evaluates an instance of the model `top`.
pub open spec fn spec_evaluator_symbol(top: Seq<char>) -> Seq<char> {
    "ffi_V"@ + top + "_eval"@
}

/// The symbol that drives the port `port` of the model `top`.
pub open spec fn spec_pin_symbol(top: Seq<char>, port: Seq<char>) -> Seq<char> {
    "ffi_V"@ + top + "_pin_"@ + port
}

/// The symbol that observes the port `port` of the model `top`.
pub open spec fn spec_read_symbol(top: Seq<char>, port: Seq<char>) -> Seq<char> {
    "ffi_V"@ + top + "_read_"@ + port
}

/// The symbol that opens a waveform trace on an instance of `top`.
pub open spec fn spec_open_trace_symbol(top: Seq<char>) -> Seq<char> {
    "ffi_V"@ + top + "_open_trace"@
}

/// The symbol that receives the foreign callbacks of a library.
pub open spec fn spec_dpi_init_symbol() -> Seq<char> {
    "dpi_init_callback"@
}

/// The symbol that switches waveform tracing on for a library.
pub open spec fn spec_trace_ever_on_symbol() -> Seq<char> {
    "ffi_Verilated_traceEverOn"@
}

/// The symbol that writes one cycle of a waveform trace.
pub open spec fn spec_vcd_dump_symbol() -> Seq<char> {
    "ffi_VerilatedVcdC_dump"@
}

/// The symbol that continues a waveform trace in a new file.
pub open spec fn spec_vcd_open_next_symbol() -> Seq<char> {
    "ffi_VerilatedVcdC_open_next"@
}

/// The symbol that flushes a waveform trace.
pub open spec fn spec_vcd_flush_symbol() -> Seq<char> {
    "ffi_VerilatedVcdC_flush"@
}

/// The symbol that closes a waveform trace and frees it.
pub open spec fn spec_vcd_close_symbol() -> Seq<char> {
    "ffi_VerilatedVcdC_close_and_delete"@
}

/// Builds [`spec_constructor_symbol`].
pub fn constructor_symbol(top: &str) -> (symbol: String)
    ensures
        symbol@ == spec_constructor_symbol(top@),
{
    let mut symbol = "ffi_new_V".to_owned();
    symbol.append(top);
    symbol
}

/// Builds [`spec_destructor_symbol`].
pub fn destructor_symbol(top: &str) -> (symbol: String)
    ensures
        symbol@ == spec_destructor_symbol(top@),
{
    let mut symbol = "ffi_delete_V".to_owned();
    symbol.append(top);
    symbol
}

/// Builds [`spec_evaluator_symbol`].
pub fn evaluator_symbol(top: &str) -> (symbol: String)
    ensures
        symbol@ == spec_evaluator_symbol(top@),
{
    let mut symbol = "ffi_V".to_owned();
    symbol.append(top);
    symbol.append("_eval");
    symbol
}

/// Builds [`spec_pin_symbol`].
pub fn pin_symbol(top: &str, port: &str) -> (symbol: String)
    ensures
        symbol@ == spec_pin_symbol(top@, port@),
{
    let mut symbol = "ffi_V".to_owned();
    symbol.append(top);
    symbol.append("_pin_");
    symbol.append(port);
    symbol
}

/// Builds [`spec_read_symbol`].
pub fn read_symbol(top: &str, port: &str) -> (symbol: String)
    ensures
        symbol@ == spec_read_symbol(top@, port@),
{
    let mut symbol = "ffi_V".to_owned();
    symbol.append(top);
    symbol.append("_read_");
    symbol.append(port);
    symbol
}

/// Builds [`spec_open_trace_symbol`].
pub fn open_trace_symbol(top: &str) -> (symbol: String)
    ensures
        symbol@ == spec_open_trace_symbol(top@),
{
    let mut symbol = "ffi_V".to_owned();
    symbol.append(top);
    symbol.append("_open_trace");
    symbol
}

/// Builds [`spec_dpi_init_symbol`].
pub fn dpi_init_symbol() -> (symbol: String)
    ensures
        symbol@ == spec_dpi_init_symbol(),
{
    "dpi_init_callback".to_owned()
}

/// Builds [`spec_trace_ever_on_symbol`].
pub fn trace_ever_on_symbol() -> (symbol: String)
    ensures
        symbol@ == spec_trace_ever_on_symbol(),
{
    "ffi_Verilated_traceEverOn".to_owned()
}

/// Builds [`spec_vcd_dump_symbol`].
pub fn vcd_dump_symbol() -> (symbol: String)
    ensures
        symbol@ == spec_vcd_dump_symbol(),
{
    "ffi_VerilatedVcdC_dump".to_owned()
}

/// Builds [`spec_vcd_open_next_symbol`].
pub fn vcd_open_next_symbol() -> (symbol: String)
    ensures
        symbol@ == spec_vcd_open_next_symbol(),
{
    "ffi_VerilatedVcdC_open_next".to_owned()
}

/// Builds [`spec_vcd_flush_symbol`].
pub fn vcd_flush_symbol() -> (symbol: String)
    ensures
        symbol@ == spec_vcd_flush_symbol(),
{
    "ffi_VerilatedVcdC_flush".to_owned()
}

/// Builds [`spec_vcd_close_symbol`].
pub fn vcd_close_symbol() -> (symbol: String)
    ensures
        symbol@ == spec_vcd_close_symbol(),
{
    "ffi_VerilatedVcdC_close_and_delete".to_owned()
}

/// What the loader said of one symbol: nothing where it found the symbol,
/// or its words where it did not.
#[derive(Debug, Clone)]
pub struct SymbolLookup {
    pub symbol: String,
    pub failure: Option<String>,
}

/// What a [`SymbolLookup`] holds.
pub ghost struct SymbolLookupView {
    pub symbol: Seq<char>,
    pub failure: Option<Seq<char>>,
}

impl View for SymbolLookup {
    type V = SymbolLookupView;

    open spec fn view(&self) -> SymbolLookupView {
        SymbolLookupView {
            symbol: self.symbol@,
            failure: match self.failure {
                Some(detail) => Some(detail@),
                None => None,
            },
        }
    }
}

impl DeepView for SymbolLookup {
    type V = SymbolLookupView;

    open spec fn deep_view(&self) -> SymbolLookupView {
        self@
    }
}

/// The least place of a symbol that was not found, or `lookups.len()`.
pub open spec fn first_missing(lookups: Seq<SymbolLookupView>) -> int
    decreases lookups.len(),
{
    if lookups.len() == 0 {
        0
    } else if lookups[0].failure is Some {
        0
    } else {
        1 + first_missing(lookups.drop_first())
    }
}

/// `first_missing` is the least place of a symbol that was not found.
pub proof fn lemma_first_missing(lookups: Seq<SymbolLookupView>)
    ensures
        0 <= first_missing(lookups) <= lookups.len(),
        first_missing(lookups) < lookups.len() ==> lookups[first_missing(lookups)].failure is Some,
        forall|j: int| 0 <= j < first_missing(lookups) ==> (#[trigger] lookups[j]).failure is None,
    decreases lookups.len(),
{
    if lookups.len() > 0 && lookups[0].failure is None {
        lemma_first_missing(lookups.drop_first());
        assert forall|j: int| 0 <= j < first_missing(lookups) implies (
        #[trigger] lookups[j]).failure is None by {
            if j > 0 {
                assert(lookups.drop_first()[j - 1] == lookups[j]);
            }
        }
    }
}

/// Checks that the library of the module `module` has every symbol that
/// was looked up. The first that is missing is an error that names the
/// symbol and the module and keeps the loader's words.
pub fn check_symbols(module: &str, lookups: &Vec<SymbolLookup>) -> (outcome: Result<
    (),
    RuntimeError,
>)
    ensures
        outcome is Ok <==> first_missing(lookups.deep_view()) >= lookups.len(),
        outcome matches Err(e) ==> e@ == (RuntimeErrorView::SymbolResolution {
            module: module@,
            symbol: lookups.deep_view()[first_missing(lookups.deep_view())].symbol,
            detail: lookups.deep_view()[first_missing(lookups.deep_view())].failure->0,
        }),
{
    let ghost views = lookups.deep_view();
    let mut i: usize = 0;
    assert(views.skip(0) =~= views);
    while i < lookups.len()
        invariant
            i <= lookups.len(),
            views == lookups.deep_view(),
            first_missing(views) == i + first_missing(views.skip(i as int)),
        decreases lookups.len() - i,
    {
        proof {
            assert(views.skip(i as int)[0] == lookups[i as int]@);
            assert(views.skip(i as int).drop_first() =~= views.skip(i + 1));
            assert(views[i as int] == lookups[i as int]@);
        }
        match &lookups[i].failure {
            Some(detail) => {
                return Err(
                    RuntimeError::SymbolResolution {
                        module: module.to_owned(),
                        symbol: lookups[i].symbol.clone(),
                        detail: detail.clone(),
                    },
                );
            },
            None => {},
        }
        i = i + 1;
    }
    assert(views.skip(lookups.len() as int) =~= Seq::<SymbolLookupView>::empty());
    Ok(())
}

} // verus!
