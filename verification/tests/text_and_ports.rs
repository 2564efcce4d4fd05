use marlin::port::{bucket_for, PortDescriptor, PortDirection, WidthBucket};
use marlin::signature::{
    artifact_directory_name, cache_key, sanitize_path, validate_ports, validate_signature,
};
use marlin::config::{VerilatedModelConfig, VerilatorRuntimeOptions};
use marlin::error::{ErrorKind, IoOperation, RuntimeError};
use marlin::text::{check_escaped_name, decimal_string, join, text_eq};

fn port(name: &str, msb: usize, lsb: usize, direction: PortDirection) -> PortDescriptor {
    PortDescriptor::new(name, msb, lsb, direction)
}

#[test]
fn decimal_string_writes_numbers() {
    assert_eq!(decimal_string(0), "0");
    assert_eq!(decimal_string(7), "7");
    assert_eq!(decimal_string(10), "10");
    assert_eq!(decimal_string(12345), "12345");
    assert_eq!(decimal_string(9007199254740993), "9007199254740993");
    assert_eq!(decimal_string(u64::MAX), "18446744073709551615");
}

#[test]
fn join_puts_separator_between_parts() {
    let none: Vec<String> = vec![];
    assert_eq!(join(&none, ", "), "");
    assert_eq!(join(&vec!["a".to_string()], ", "), "a");
    assert_eq!(
        join(&vec!["a".to_string(), "b".to_string(), "c".to_string()], ", "),
        "a, b, c"
    );
}

#[test]
fn text_eq_compares_contents() {
    assert!(text_eq("abc", "abc"));
    assert!(!text_eq("abc", "abd"));
    assert!(!text_eq("abc", "ab"));
    assert!(text_eq("", ""));
}

#[test]
fn escaped_names_hold_backslash_or_space() {
    assert!(!check_escaped_name("main"));
    assert!(!check_escaped_name(""));
    assert!(check_escaped_name("\\main"));
    assert!(check_escaped_name("my module"));
    assert!(check_escaped_name("end "));
}

#[test]
fn bucket_for_every_width() {
    assert_eq!(bucket_for(0), None);
    for w in 1..=8 {
        assert_eq!(bucket_for(w), Some(WidthBucket::U8));
    }
    for w in 9..=16 {
        assert_eq!(bucket_for(w), Some(WidthBucket::U16));
    }
    for w in 17..=32 {
        assert_eq!(bucket_for(w), Some(WidthBucket::U32));
    }
    for w in 33..=64 {
        assert_eq!(bucket_for(w), Some(WidthBucket::U64));
    }
    assert_eq!(bucket_for(65), None);
    assert_eq!(bucket_for(usize::MAX), None);
}

#[test]
fn bucket_ranges() {
    assert_eq!((WidthBucket::U8.lower(), WidthBucket::U8.bits()), (1, 8));
    assert_eq!((WidthBucket::U16.lower(), WidthBucket::U16.bits()), (9, 16));
    assert_eq!((WidthBucket::U32.lower(), WidthBucket::U32.bits()), (17, 32));
    assert_eq!((WidthBucket::U64.lower(), WidthBucket::U64.bits()), (33, 64));
}

#[test]
fn port_width_and_bucket() {
    let p = port("a", 8, 0, PortDirection::Input);
    assert_eq!(p.width(), Some(9));
    assert_eq!(p.bucket(), Some(WidthBucket::U16));
    assert!(p.is_valid());
    let single = port("clk", 0, 0, PortDirection::Input);
    assert_eq!(single.width(), Some(1));
    assert_eq!(single.bucket(), Some(WidthBucket::U8));
    let offset = port("b", 71, 8, PortDirection::Output);
    assert_eq!(offset.width(), Some(64));
    assert_eq!(offset.bucket(), Some(WidthBucket::U64));
    let wide = port("w", 64, 0, PortDirection::Output);
    assert_eq!(wide.width(), Some(65));
    assert_eq!(wide.bucket(), None);
    assert!(!wide.is_valid());
    let inverted = port("i", 0, 3, PortDirection::Output);
    assert_eq!(inverted.width(), None);
    assert_eq!(inverted.bucket(), None);
    assert!(!inverted.is_valid());
    let huge = port("h", usize::MAX, 0, PortDirection::Output);
    assert_eq!(huge.width(), None);
    assert!(!huge.is_valid());
}

#[test]
fn directions_are_ordered_as_declared() {
    assert!(PortDirection::Input < PortDirection::Output);
    assert!(PortDirection::Output < PortDirection::Inout);
    let mut all = vec![PortDirection::Inout, PortDirection::Input, PortDirection::Output];
    all.sort();
    assert_eq!(all, vec![PortDirection::Input, PortDirection::Output, PortDirection::Inout]);
}

#[test]
fn direction_names_and_access() {
    assert_eq!(PortDirection::Input.name(), "input");
    assert_eq!(PortDirection::Output.name(), "output");
    assert_eq!(PortDirection::Inout.name(), "inout");
    assert!(PortDirection::Input.is_writable() && !PortDirection::Input.is_readable());
    assert!(!PortDirection::Output.is_writable() && PortDirection::Output.is_readable());
    assert!(PortDirection::Inout.is_writable() && PortDirection::Inout.is_readable());
}

#[test]
fn validation_accepts_good_signature() {
    let ports = vec![
        port("a", 7, 0, PortDirection::Input),
        port("b", 63, 0, PortDirection::Output),
        port("c", 3, 3, PortDirection::Inout),
    ];
    assert!(validate_signature("main", &ports).is_ok());
    assert!(validate_ports("main", &ports).is_ok());
    assert!(validate_signature("main", &vec![]).is_ok());
}

#[test]
fn validation_reports_escaped_module_name_first() {
    let ports = vec![port("a b", 0, 5, PortDirection::Input)];
    match validate_signature("my main", &ports) {
        Err(RuntimeError::EscapedModuleName { module }) => assert_eq!(module, "my main"),
        other => panic!("unexpected {:?}", other),
    }
    match validate_signature("\\main", &vec![]) {
        Err(e) => assert_eq!(e.kind(), ErrorKind::Validation),
        Ok(()) => panic!("accepted"),
    }
}

#[test]
fn validation_reports_first_escaped_port() {
    let ports = vec![
        port("fine", 0, 5, PortDirection::Input),
        port("a b", 7, 0, PortDirection::Input),
        port("c\\d", 7, 0, PortDirection::Input),
    ];
    match validate_signature("main", &ports) {
        Err(RuntimeError::EscapedPortName { module, port }) => {
            assert_eq!(module, "main");
            assert_eq!(port, "a b");
        }
        other => panic!("unexpected {:?}", other),
    }
}

#[test]
fn validation_reports_inverted_before_too_wide() {
    let ports = vec![
        port("wide", 64, 0, PortDirection::Input),
        port("ok", 7, 0, PortDirection::Input),
        port("inv", 1, 2, PortDirection::Output),
        port("inv2", 0, 9, PortDirection::Output),
    ];
    match validate_signature("main", &ports) {
        Err(RuntimeError::InvertedPortRange { module, port }) => {
            assert_eq!(module, "main");
            assert_eq!(port, "inv");
        }
        other => panic!("unexpected {:?}", other),
    }
}

#[test]
fn validation_reports_first_too_wide() {
    let ports = vec![
        port("ok", 63, 0, PortDirection::Input),
        port("wide", 64, 0, PortDirection::Input),
        port("wider", 200, 0, PortDirection::Input),
    ];
    match validate_ports("top", &ports) {
        Err(RuntimeError::PortTooWide { module, port }) => {
            assert_eq!(module, "top");
            assert_eq!(port, "wide");
        }
        other => panic!("unexpected {:?}", other),
    }
    let e = validate_signature("top", &ports).unwrap_err();
    assert_eq!(e.message(), "Port wide on module top is greater than 64 bits");
}

#[test]
fn sanitize_path_escapes_underscores_and_slashes() {
    assert_eq!(sanitize_path("src/main.sv"), "src_-main.sv");
    assert_eq!(sanitize_path("a_b/c"), "a__b_-c");
    assert_eq!(sanitize_path("__"), "____");
    assert_eq!(sanitize_path("//"), "_-_-");
    assert_eq!(sanitize_path("_-"), "__-");
    assert_eq!(sanitize_path("a.b-c"), "a.b-c");
    assert_eq!(sanitize_path(""), "");
}

#[test]
fn artifact_directory_name_joins_parts() {
    assert_eq!(
        artifact_directory_name("main", "src/my_main.sv", 42),
        "main_.src_-my__main.sv_.42"
    );
    assert_eq!(artifact_directory_name("m", "", 0), "m_._.0");
    assert_eq!(artifact_directory_name("", "", 7), "_._.7");
    assert_eq!(
        artifact_directory_name("top", "a/b", u64::MAX),
        "top_.a_-b_.18446744073709551615"
    );
    assert_eq!(artifact_directory_name("my_top", "a", 1), "my__top_.a_.1");
}

#[test]
fn artifact_directory_names_tell_requests_apart() {
    let cases = [
        ("main", "a/_b.sv", 1u64),
        ("main", "a_/b.sv", 1),
        ("main", "a__b.sv", 1),
        ("main", "a//b.sv", 1),
        ("main", "a_-b.sv", 1),
        ("a_b", "c", 1),
        ("a", "b/c", 1),
        ("a", "b_c", 1),
        ("a_", "b_c", 1),
        ("a_.b", "c", 1),
        ("a", "b_.c", 1),
        ("a", "_.b_.c", 1),
        ("a", "b", 11),
        ("a", "b_.1", 1),
        ("a", "b", 1),
        ("a.", "b", 1),
        ("a", ".b", 1),
        ("", "a_.b", 1),
        ("a", "", 1),
        ("", "a", 1),
    ];
    for (i, (module, path, key)) in cases.iter().enumerate() {
        let name = artifact_directory_name(module, path, *key);
        assert!(!name.contains('/'), "{} holds a slash", name);
        assert!(!name.is_empty());
        for (other_module, other_path, other_key) in cases.iter().skip(i + 1) {
            assert_ne!(
                name,
                artifact_directory_name(other_module, other_path, *other_key),
                "{:?} and {:?}",
                (module, path, key),
                (other_module, other_path, other_key)
            );
        }
    }
}

#[test]
fn cache_key_is_a_function_of_ports_and_config() {
    let ports = vec![
        port("a", 7, 0, PortDirection::Input),
        port("b", 7, 0, PortDirection::Output),
    ];
    let same = vec![
        port("a", 7, 0, PortDirection::Input),
        port("b", 7, 0, PortDirection::Output),
    ];
    let config = VerilatedModelConfig::default();
    assert_eq!(cache_key(&ports, &config), cache_key(&same, &VerilatedModelConfig::default()));
}

#[test]
fn cache_key_tells_signatures_apart() {
    let base = vec![port("a", 7, 0, PortDirection::Input)];
    let config = VerilatedModelConfig::default();
    let key = cache_key(&base, &config);
    let renamed = vec![port("b", 7, 0, PortDirection::Input)];
    let wider = vec![port("a", 8, 0, PortDirection::Input)];
    let shifted = vec![port("a", 7, 1, PortDirection::Input)];
    let turned = vec![port("a", 7, 0, PortDirection::Output)];
    let more = vec![port("a", 7, 0, PortDirection::Input), port("a", 7, 0, PortDirection::Input)];
    assert_ne!(key, cache_key(&renamed, &config));
    assert_ne!(key, cache_key(&wider, &config));
    assert_ne!(key, cache_key(&shifted, &config));
    assert_ne!(key, cache_key(&turned, &config));
    assert_ne!(key, cache_key(&more, &config));
    assert_ne!(key, cache_key(&vec![], &config));
    let optimized = VerilatedModelConfig {
        verilator_optimization: 2,
        ignored_warnings: vec![],
        enable_tracing: false,
    };
    let quiet = VerilatedModelConfig {
        verilator_optimization: 0,
        ignored_warnings: vec!["WIDTH".to_string()],
        enable_tracing: false,
    };
    let traced = VerilatedModelConfig {
        verilator_optimization: 0,
        ignored_warnings: vec![],
        enable_tracing: true,
    };
    assert_ne!(key, cache_key(&base, &optimized));
    assert_ne!(key, cache_key(&base, &quiet));
    assert_ne!(key, cache_key(&base, &traced));
    assert_ne!(cache_key(&base, &quiet), cache_key(&base, &traced));
}

#[test]
fn default_settings() {
    let config = VerilatedModelConfig::default();
    assert_eq!(config.verilator_optimization, 0);
    assert!(config.ignored_warnings.is_empty());
    assert!(!config.enable_tracing);
    let options = VerilatorRuntimeOptions::default();
    assert_eq!(options.verilator_executable, "verilator");
    assert!(!options.force_verilator_rebuild);
    assert!(!options.log);
    let logging = VerilatorRuntimeOptions::default_logging();
    assert_eq!(logging.verilator_executable, "verilator");
    assert!(!logging.force_verilator_rebuild);
    assert!(logging.log);
    let copy = logging.duplicate();
    assert!(copy.log);
    let quiet = VerilatedModelConfig {
        verilator_optimization: 3,
        ignored_warnings: vec!["WIDTH".to_string()],
        enable_tracing: true,
    };
    let copy = quiet.duplicate();
    assert_eq!(copy.verilator_optimization, 3);
    assert_eq!(copy.ignored_warnings, vec!["WIDTH".to_string()]);
    assert!(copy.enable_tracing);
}

#[test]
fn error_messages_and_kinds() {
    let cases: Vec<(RuntimeError, ErrorKind, &str)> = vec![
        (
            RuntimeError::EscapedModuleName { module: "a b".to_string() },
            ErrorKind::Validation,
            "Escaped module names are not supported: `a b`",
        ),
        (
            RuntimeError::EscapedPortName { module: "m".to_string(), port: "p q".to_string() },
            ErrorKind::Validation,
            "Escaped port names are not supported: port `p q` on module m",
        ),
        (
            RuntimeError::InvertedPortRange { module: "m".to_string(), port: "p".to_string() },
            ErrorKind::Validation,
            "Port p on module m was specified with the high bit less than the low bit",
        ),
        (
            RuntimeError::PortTooWide { module: "m".to_string(), port: "p".to_string() },
            ErrorKind::Validation,
            "Port p on module m is greater than 64 bits",
        ),
        (
            RuntimeError::InvalidOptimizationLevel { level: 4 },
            ErrorKind::Validation,
            "Invalid Verilator optimization level: 4",
        ),
        (
            RuntimeError::SourceMissing { path: "src/x.sv".to_string() },
            ErrorKind::SourceMissing,
            "Source file src/x.sv does not exist or is not a file. Note that if it's a relative path, you must be in the correct directory",
        ),
        (
            RuntimeError::SourceNotProvided {
                module: "m".to_string(),
                source_path: "src/m.sv".to_string(),
            },
            ErrorKind::SourceMissing,
            "Module `m` requires source file src/m.sv, which was not provided to the runtime",
        ),
        (
            RuntimeError::LockAcquisition { path: "a/b.lock".to_string(), detail: "busy".to_string() },
            ErrorKind::LockAcquisition,
            "Failed to acquire lock for artifacts directory a/b.lock: busy",
        ),
        (
            RuntimeError::Io {
                operation: IoOperation::CreateDirectory,
                path: "a/ffi".to_string(),
                detail: "denied".to_string(),
            },
            ErrorKind::Io,
            "Failed to create directory a/ffi: denied",
        ),
        (
            RuntimeError::BuildTool {
                status: "exit status: 1".to_string(),
                stdout: "out\nline".to_string(),
                stderr: "%Error: x".to_string(),
            },
            ErrorKind::BuildTool,
            "Invocation of verilator failed with nonzero exit code exit status: 1\n\n--- STDOUT ---\nout\nline\n\n--- STDERR ---\n%Error: x",
        ),
        (
            RuntimeError::SymbolResolution {
                module: "m".to_string(),
                symbol: "ffi_new_Vm".to_string(),
                detail: "undefined symbol".to_string(),
            },
            ErrorKind::SymbolResolution,
            "Failed to load symbol ffi_new_Vm for module m: undefined symbol",
        ),
        (
            RuntimeError::UnexpectedEvent,
            ErrorKind::Protocol,
            "A step was reported that the build was not waiting for",
        ),
        (
            RuntimeError::NoClockPort { module: "m".to_string() },
            ErrorKind::Validation,
            "Module `m` has no clock port",
        ),
    ];
    for (error, kind, message) in cases {
        assert_eq!(error.kind(), kind);
        assert_eq!(error.message(), message);
    }
    assert_eq!(IoOperation::ReadMetadata.describe(), "read file metadata for");
    assert_eq!(IoOperation::WriteFile.describe(), "write file");
    assert_eq!(IoOperation::RunCompiler.describe(), "invoke");
    assert_eq!(IoOperation::OpenLibrary.describe(), "load dynamic library");
}
