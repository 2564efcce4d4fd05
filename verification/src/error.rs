//! What can go wrong between a request for a model and a loaded library.

use crate::text::{decimal, decimal_string};
use vstd::prelude::*;
use vstd::string::*;

verus! {

/// The step of a build that touched the file system or the compiler.
#[derive(Debug, Clone, Copy, PartialEq, Eq, Hash, Structural)]
pub enum IoOperation {
    CreateDirectory,
    ReadMetadata,
    WriteFile,
    RunCompiler,
    OpenLibrary,
}

impl IoOperation {
    /// What the step was doing, as it reads in a message.
    pub open spec fn phrase(self) -> Seq<char> {
        match self {
            IoOperation::CreateDirectory => "create directory"@,
            IoOperation::ReadMetadata => "read file metadata for"@,
            IoOperation::WriteFile => "write file"@,
            IoOperation::RunCompiler => "invoke"@,
            IoOperation::OpenLibrary => "load dynamic library"@,
        }
    }

    /// What the step was doing, as it reads in a message.
    pub fn describe(&self) -> (text: &'static str)
        ensures
            text@ == self.phrase(),
    {
        match self {
            IoOperation::CreateDirectory => "create directory",
            IoOperation::ReadMetadata => "read file metadata for",
            IoOperation::WriteFile => "write file",
            IoOperation::RunCompiler => "invoke",
            IoOperation::OpenLibrary => "load dynamic library",
        }
    }
}

/// The families of failure.
#[derive(Debug, Clone, Copy, PartialEq, Eq, Hash, Structural)]
pub enum ErrorKind {
    /// A name or a bit range of the signature is not acceptable.
    Validation,
    /// A declared source file is absent, or a model asks for a source that
    /// the runtime was not given.
    SourceMissing,
    /// A lock on the artifact directory could not be taken.
    LockAcquisition,
    /// The file system or the process launcher failed.
    Io,
    /// The compiler ran and exited with a failure.
    BuildTool,
    /// The library lacks a symbol that the generated glue should define.
    SymbolResolution,
    /// A step was reported that the build was not waiting for.
    Protocol,
}

/// A failure of the runtime. Nothing is retried: each is handed to the
/// caller with what is needed to act on it.
#[derive(Debug, Clone)]
pub enum RuntimeError {
    /// The module name holds a backslash or a space.
    EscapedModuleName { module: String },
    /// A port name holds a backslash or a space.
    EscapedPortName { module: String, port: String },
    /// A port has its high bit below its low bit.
    InvertedPortRange { module: String, port: String },
    /// A port is wider than 64 bits.
    PortTooWide { module: String, port: String },
    /// The optimization level is above 3.
    InvalidOptimizationLevel { level: usize },
    /// A source file given to the runtime is not a file.
    SourceMissing { path: String },
    /// The model's source is not among the files given to the runtime.
    SourceNotProvided { module: String, source_path: String },
    /// A lock could not be taken.
    LockAcquisition { path: String, detail: String },
    /// A file-system step or the launch of the compiler failed.
    Io { operation: IoOperation, path: String, detail: String },
    /// The compiler exited with a failure; its output is kept whole.
    BuildTool { status: String, stdout: String, stderr: String },
    /// A symbol is missing from the loaded library.
    SymbolResolution { module: String, symbol: String, detail: String },
    /// The driver reported something that was not asked for.
    UnexpectedEvent,
    /// The model has no clock to tick.
    NoClockPort { module: String },
}

/// What a [`RuntimeError`] holds.
pub ghost enum RuntimeErrorView {
    EscapedModuleName { module: Seq<char> },
    EscapedPortName { module: Seq<char>, port: Seq<char> },
    InvertedPortRange { module: Seq<char>, port: Seq<char> },
    PortTooWide { module: Seq<char>, port: Seq<char> },
    InvalidOptimizationLevel { level: int },
    SourceMissing { path: Seq<char> },
    SourceNotProvided { module: Seq<char>, source_path: Seq<char> },
    LockAcquisition { path: Seq<char>, detail: Seq<char> },
    Io { operation: IoOperation, path: Seq<char>, detail: Seq<char> },
    BuildTool { status: Seq<char>, stdout: Seq<char>, stderr: Seq<char> },
    SymbolResolution { module: Seq<char>, symbol: Seq<char>, detail: Seq<char> },
    UnexpectedEvent,
    NoClockPort { module: Seq<char> },
}

impl View for RuntimeError {
    type V = RuntimeErrorView;

    open spec fn view(&self) -> RuntimeErrorView {
        match self {
            RuntimeError::EscapedModuleName { module } => RuntimeErrorView::EscapedModuleName {
                module: module@,
            },
            RuntimeError::EscapedPortName { module, port } => RuntimeErrorView::EscapedPortName {
                module: module@,
                port: port@,
            },
            RuntimeError::InvertedPortRange {
                module,
                port,
            } => RuntimeErrorView::InvertedPortRange { module: module@, port: port@ },
            RuntimeError::PortTooWide { module, port } => RuntimeErrorView::PortTooWide {
                module: module@,
                port: port@,
            },
            RuntimeError::InvalidOptimizationLevel {
                level,
            } => RuntimeErrorView::InvalidOptimizationLevel { level: *level as int },
            RuntimeError::SourceMissing { path } => RuntimeErrorView::SourceMissing {
                path: path@,
            },
            RuntimeError::SourceNotProvided {
                module,
                source_path,
            } => RuntimeErrorView::SourceNotProvided {
                module: module@,
                source_path: source_path@,
            },
            RuntimeError::LockAcquisition { path, detail } => RuntimeErrorView::LockAcquisition {
                path: path@,
                detail: detail@,
            },
            RuntimeError::Io { operation, path, detail } => RuntimeErrorView::Io {
                operation: *operation,
                path: path@,
                detail: detail@,
            },
            RuntimeError::BuildTool { status, stdout, stderr } => RuntimeErrorView::BuildTool {
                status: status@,
                stdout: stdout@,
                stderr: stderr@,
            },
            RuntimeError::SymbolResolution {
                module,
                symbol,
                detail,
            } => RuntimeErrorView::SymbolResolution {
                module: module@,
                symbol: symbol@,
                detail: detail@,
            },
            RuntimeError::UnexpectedEvent => RuntimeErrorView::UnexpectedEvent,
            RuntimeError::NoClockPort { module } => RuntimeErrorView::NoClockPort {
                module: module@,
            },
        }
    }
}

impl RuntimeErrorView {
    /// The family of the failure.
    pub open spec fn kind(self) -> ErrorKind {
        match self {
            RuntimeErrorView::EscapedModuleName { .. } => ErrorKind::Validation,
            RuntimeErrorView::EscapedPortName { .. } => ErrorKind::Validation,
            RuntimeErrorView::InvertedPortRange { .. } => ErrorKind::Validation,
            RuntimeErrorView::PortTooWide { .. } => ErrorKind::Validation,
            RuntimeErrorView::InvalidOptimizationLevel { .. } => ErrorKind::Validation,
            RuntimeErrorView::SourceMissing { .. } => ErrorKind::SourceMissing,
            RuntimeErrorView::SourceNotProvided { .. } => ErrorKind::SourceMissing,
            RuntimeErrorView::LockAcquisition { .. } => ErrorKind::LockAcquisition,
            RuntimeErrorView::Io { .. } => ErrorKind::Io,
            RuntimeErrorView::BuildTool { .. } => ErrorKind::BuildTool,
            RuntimeErrorView::SymbolResolution { .. } => ErrorKind::SymbolResolution,
            RuntimeErrorView::UnexpectedEvent => ErrorKind::Protocol,
            RuntimeErrorView::NoClockPort { .. } => ErrorKind::Validation,
        }
    }

    /// The message shown to the user.
    pub open spec fn message(self) -> Seq<char> {
        match self {
            RuntimeErrorView::EscapedModuleName { module } => {
                "Escaped module names are not supported: `"@ + module + "`"@
            },
            RuntimeErrorView::EscapedPortName { module, port } => {
                "Escaped port names are not supported: port `"@ + port + "` on module "@ + module
            },
            RuntimeErrorView::InvertedPortRange { module, port } => {
                "Port "@ + port + " on module "@ + module
                    + " was specified with the high bit less than the low bit"@
            },
            RuntimeErrorView::PortTooWide { module, port } => {
                "Port "@ + port + " on module "@ + module + " is greater than 64 bits"@
            },
            RuntimeErrorView::InvalidOptimizationLevel { level } => {
                "Invalid Verilator optimization level: "@ + decimal(level as nat)
            },
            RuntimeErrorView::SourceMissing { path } => {
                "Source file "@ + path
                    + " does not exist or is not a file. Note that if it's a relative path, you must be in the correct directory"@
            },
            RuntimeErrorView::SourceNotProvided { module, source_path } => {
                "Module `"@ + module + "` requires source file "@ + source_path
                    + ", which was not provided to the runtime"@
            },
            RuntimeErrorView::LockAcquisition { path, detail } => {
                "Failed to acquire lock for artifacts directory "@ + path + ": "@ + detail
            },
            RuntimeErrorView::Io { operation, path, detail } => {
                "Failed to "@ + operation.phrase() + " "@ + path + ": "@ + detail
            },
            RuntimeErrorView::BuildTool { status, stdout, stderr } => {
                "Invocation of verilator failed with nonzero exit code "@ + status
                    + "\n\n--- STDOUT ---\n"@ + stdout + "\n\n--- STDERR ---\n"@ + stderr
            },
            RuntimeErrorView::SymbolResolution { module, symbol, detail } => {
                "Failed to load symbol "@ + symbol + " for module "@ + module + ": "@ + detail
            },
            RuntimeErrorView::UnexpectedEvent => {
                "A step was reported that the build was not waiting for"@
            },
            RuntimeErrorView::NoClockPort { module } => {
                "Module `"@ + module + "` has no clock port"@
            },
        }
    }
}

impl RuntimeError {
    /// The family of the failure.
    pub fn kind(&self) -> (kind: ErrorKind)
        ensures
            kind == self@.kind(),
    {
        match self {
            RuntimeError::EscapedModuleName { .. } => ErrorKind::Validation,
            RuntimeError::EscapedPortName { .. } => ErrorKind::Validation,
            RuntimeError::InvertedPortRange { .. } => ErrorKind::Validation,
            RuntimeError::PortTooWide { .. } => ErrorKind::Validation,
            RuntimeError::InvalidOptimizationLevel { .. } => ErrorKind::Validation,
            RuntimeError::SourceMissing { .. } => ErrorKind::SourceMissing,
            RuntimeError::SourceNotProvided { .. } => ErrorKind::SourceMissing,
            RuntimeError::LockAcquisition { .. } => ErrorKind::LockAcquisition,
            RuntimeError::Io { .. } => ErrorKind::Io,
            RuntimeError::BuildTool { .. } => ErrorKind::BuildTool,
            RuntimeError::SymbolResolution { .. } => ErrorKind::SymbolResolution,
            RuntimeError::UnexpectedEvent => ErrorKind::Protocol,
            RuntimeError::NoClockPort { .. } => ErrorKind::Validation,
        }
    }

    /// The message shown to the user. The compiler's output is part of it
    /// as it came.
    pub fn message(&self) -> (text: String)
        ensures
            text@ == self@.message(),
    {
        match self {
            RuntimeError::EscapedModuleName { module } => {
                let mut text = "Escaped module names are not supported: `".to_owned();
                text.append(module.as_str());
                text.append("`");
                text
            },
            RuntimeError::EscapedPortName { module, port } => {
                let mut text = "Escaped port names are not supported: port `".to_owned();
                text.append(port.as_str());
                text.append("` on module ");
                text.append(module.as_str());
                text
            },
            RuntimeError::InvertedPortRange { module, port } => {
                let mut text = "Port ".to_owned();
                text.append(port.as_str());
                text.append(" on module ");
                text.append(module.as_str());
                text.append(" was specified with the high bit less than the low bit");
                text
            },
            RuntimeError::PortTooWide { module, port } => {
                let mut text = "Port ".to_owned();
                text.append(port.as_str());
                text.append(" on module ");
                text.append(module.as_str());
                text.append(" is greater than 64 bits");
                text
            },
            RuntimeError::InvalidOptimizationLevel { level } => {
                let mut text = "Invalid Verilator optimization level: ".to_owned();
                let number = decimal_string(*level as u64);
                text.append(number.as_str());
                text
            },
            RuntimeError::SourceMissing { path } => {
                let mut text = "Source file ".to_owned();
                text.append(path.as_str());
                text.append(
                    " does not exist or is not a file. Note that if it's a relative path, you must be in the correct directory",
                );
                text
            },
            RuntimeError::SourceNotProvided { module, source_path } => {
                let mut text = "Module `".to_owned();
                text.append(module.as_str());
                text.append("` requires source file ");
                text.append(source_path.as_str());
                text.append(", which was not provided to the runtime");
                text
            },
            RuntimeError::LockAcquisition { path, detail } => {
                let mut text = "Failed to acquire lock for artifacts directory ".to_owned();
                text.append(path.as_str());
                text.append(": ");
                text.append(detail.as_str());
                text
            },
            RuntimeError::Io { operation, path, detail } => {
                let mut text = "Failed to ".to_owned();
                text.append(operation.describe());
                text.append(" ");
                text.append(path.as_str());
                text.append(": ");
                text.append(detail.as_str());
                text
            },
            RuntimeError::BuildTool { status, stdout, stderr } => {
                let mut text = "Invocation of verilator failed with nonzero exit code ".to_owned();
                text.append(status.as_str());
                text.append("\n\n--- STDOUT ---\n");
                text.append(stdout.as_str());
                text.append("\n\n--- STDERR ---\n");
                text.append(stderr.as_str());
                text
            },
            RuntimeError::SymbolResolution { module, symbol, detail } => {
                let mut text = "Failed to load symbol ".to_owned();
                text.append(symbol.as_str());
                text.append(" for module ");
                text.append(module.as_str());
                text.append(": ");
                text.append(detail.as_str());
                text
            },
            RuntimeError::UnexpectedEvent => {
                "A step was reported that the build was not waiting for".to_owned()
            },
            RuntimeError::NoClockPort { module } => {
                let mut text = "Module `".to_owned();
                text.append(module.as_str());
                text.append("` has no clock port");
                text
            },
        }
    }
}

} // verus!
