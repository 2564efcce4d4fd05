//! Settings of a model build and of the runtime.

use vstd::prelude::*;
use vstd::string::*;

verus! {

/// How one model is compiled. Two models that differ only here are
/// different artifacts.
#[derive(Debug, Clone)]
pub struct VerilatedModelConfig {
    /// `0` asks for no optimization flag; `1` to `3` pass `-O<level>`.
    pub verilator_optimization: usize,
    /// Compiler warnings that are switched off for this model.
    pub ignored_warnings: Vec<String>,
    /// Whether the model is compiled with waveform tracing.
    pub enable_tracing: bool,
}

/// What a [`VerilatedModelConfig`] holds.
pub ghost struct VerilatedModelConfigView {
    pub verilator_optimization: int,
    pub ignored_warnings: Seq<Seq<char>>,
    pub enable_tracing: bool,
}

impl View for VerilatedModelConfig {
    type V = VerilatedModelConfigView;

    open spec fn view(&self) -> VerilatedModelConfigView {
        VerilatedModelConfigView {
            verilator_optimization: self.verilator_optimization as int,
            ignored_warnings: self.ignored_warnings.deep_view(),
            enable_tracing: self.enable_tracing,
        }
    }
}

impl VerilatedModelConfigView {
    /// No optimization, no ignored warning, no tracing.
    pub open spec fn plain() -> VerilatedModelConfigView {
        VerilatedModelConfigView {
            verilator_optimization: 0,
            ignored_warnings: Seq::empty(),
            enable_tracing: false,
        }
    }
}

impl VerilatedModelConfig {
    /// A copy of the settings.
    pub fn duplicate(&self) -> (copy: Self)
        ensures
            copy@ == self@,
    {
        VerilatedModelConfig {
            verilator_optimization: self.verilator_optimization,
            ignored_warnings: self.ignored_warnings.clone(),
            enable_tracing: self.enable_tracing,
        }
    }
}

impl Default for VerilatedModelConfig {
    fn default() -> (config: Self)
        ensures
            config@ == VerilatedModelConfigView::plain(),
    {
        let config = VerilatedModelConfig {
            verilator_optimization: 0,
            ignored_warnings: Vec::new(),
            enable_tracing: false,
        };
        assert(config.ignored_warnings.deep_view() =~= Seq::empty());
        config
    }
}

/// Settings of a runtime.
#[derive(Debug, Clone)]
pub struct VerilatorRuntimeOptions {
    /// The name of the compiler's executable, as the shell would find it.
    pub verilator_executable: String,
    /// Whether the compiler is invoked even when nothing changed.
    pub force_verilator_rebuild: bool,
    /// Whether progress is logged.
    pub log: bool,
}

/// What a [`VerilatorRuntimeOptions`] holds.
pub ghost struct VerilatorRuntimeOptionsView {
    pub verilator_executable: Seq<char>,
    pub force_verilator_rebuild: bool,
    pub log: bool,
}

impl View for VerilatorRuntimeOptions {
    type V = VerilatorRuntimeOptionsView;

    open spec fn view(&self) -> VerilatorRuntimeOptionsView {
        VerilatorRuntimeOptionsView {
            verilator_executable: self.verilator_executable@,
            force_verilator_rebuild: self.force_verilator_rebuild,
            log: self.log,
        }
    }
}

impl Default for VerilatorRuntimeOptions {
    fn default() -> (options: Self)
        ensures
            options@ == (VerilatorRuntimeOptionsView {
                verilator_executable: "verilator"@,
                force_verilator_rebuild: false,
                log: false,
            }),
    {
        VerilatorRuntimeOptions {
            verilator_executable: "verilator".to_owned(),
            force_verilator_rebuild: false,
            log: false,
        }
    }
}

impl VerilatorRuntimeOptions {
    /// A copy of the settings.
    pub fn duplicate(&self) -> (copy: Self)
        ensures
            copy@ == self@,
    {
        VerilatorRuntimeOptions {
            verilator_executable: self.verilator_executable.clone(),
            force_verilator_rebuild: self.force_verilator_rebuild,
            log: self.log,
        }
    }

    /// The default settings, with logging switched on.
    pub fn default_logging() -> (options: Self)
        ensures
            options@ == (VerilatorRuntimeOptionsView {
                verilator_executable: "verilator"@,
                force_verilator_rebuild: false,
                log: true,
            }),
    {
        VerilatorRuntimeOptions {
            verilator_executable: "verilator".to_owned(),
            force_verilator_rebuild: false,
            log: true,
        }
    }
}

} // verus!
