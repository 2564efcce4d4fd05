//! The signature of a model request: its validation, its cache key and the
//! name of the directory that holds its artifacts.

use crate::config::{VerilatedModelConfig, VerilatedModelConfigView};
use crate::error::{RuntimeError, RuntimeErrorView};
use crate::port::{PortDescriptor, PortDescriptorView, PortDirection};
use crate::text::{check_escaped_name, decimal, decimal_string, is_escaped_name};
use std::collections::hash_map::DefaultHasher;
use std::hash::Hasher;
use vstd::bytes::{spec_u64_to_le_bytes, u64_to_le_bytes};
use vstd::prelude::*;
use vstd::std_specs::hash::DefaultHasherAdditionalSpecFns;
use vstd::string::*;
use vstd::utf8::encode_utf8;

verus! {

/// The least index below `ports.len()` at which `ports` holds an escaped
/// name, or `ports.len()` if there is none.
pub open spec fn first_escaped(ports: Seq<PortDescriptorView>) -> int
    decreases ports.len(),
{
    if ports.len() == 0 {
        0
    } else if first_escaped(ports.drop_last()) < ports.len() - 1 {
        first_escaped(ports.drop_last())
    } else if is_escaped_name(ports.last().name) {
        ports.len() - 1
    } else {
        ports.len() as int
    }
}

/// The least index at which `ports` holds a range with the high bit below
/// the low bit, or `ports.len()`.
pub open spec fn first_inverted(ports: Seq<PortDescriptorView>) -> int
    decreases ports.len(),
{
    if ports.len() == 0 {
        0
    } else if first_inverted(ports.drop_last()) < ports.len() - 1 {
        first_inverted(ports.drop_last())
    } else if !ports.last().ordered() {
        ports.len() - 1
    } else {
        ports.len() as int
    }
}

/// The least index at which `ports` holds a port of more than 64 bits, or
/// `ports.len()`.
pub open spec fn first_too_wide(ports: Seq<PortDescriptorView>) -> int
    decreases ports.len(),
{
    if ports.len() == 0 {
        0
    } else if first_too_wide(ports.drop_last()) < ports.len() - 1 {
        first_too_wide(ports.drop_last())
    } else if ports.last().width() > 64 {
        ports.len() - 1
    } else {
        ports.len() as int
    }
}

/// What is wrong with the bit ranges of `ports`, if anything: the first
/// range with its high bit below its low bit, or else the first port of
/// more than 64 bits.
pub open spec fn ports_error(module: Seq<char>, ports: Seq<PortDescriptorView>) -> Option<
    RuntimeErrorView,
> {
    if first_inverted(ports) < ports.len() {
        Some(
            RuntimeErrorView::InvertedPortRange { module, port: ports[first_inverted(ports)].name },
        )
    } else if first_too_wide(ports) < ports.len() {
        Some(RuntimeErrorView::PortTooWide { module, port: ports[first_too_wide(ports)].name })
    } else {
        None
    }
}

/// What is wrong with a signature, if anything. The module name is looked
/// at first, then the port names, then the bit ranges; within each, the
/// first offending port is reported.
pub open spec fn signature_error(module: Seq<char>, ports: Seq<PortDescriptorView>) -> Option<
    RuntimeErrorView,
> {
    if is_escaped_name(module) {
        Some(RuntimeErrorView::EscapedModuleName { module })
    } else if first_escaped(ports) < ports.len() {
        Some(RuntimeErrorView::EscapedPortName { module, port: ports[first_escaped(ports)].name })
    } else {
        ports_error(module, ports)
    }
}

/// `first_escaped` is the least index of an escaped port name.
pub proof fn lemma_first_escaped(ports: Seq<PortDescriptorView>)
    ensures
        0 <= first_escaped(ports) <= ports.len(),
        first_escaped(ports) < ports.len() ==> is_escaped_name(ports[first_escaped(ports)].name),
        forall|j: int| 0 <= j < first_escaped(ports) ==> !is_escaped_name(#[trigger] ports[j].name),
    decreases ports.len(),
{
    if ports.len() > 0 {
        lemma_first_escaped(ports.drop_last());
        assert forall|j: int| 0 <= j < first_escaped(ports) implies !is_escaped_name(
            #[trigger] ports[j].name,
        ) by {
            if j < ports.len() - 1 {
                assert(ports.drop_last()[j] == ports[j]);
            }
        }
        if first_escaped(ports.drop_last()) < ports.len() - 1 {
            assert(ports.drop_last()[first_escaped(ports.drop_last())] == ports[first_escaped(
                ports,
            )]);
        }
    }
}

/// `first_inverted` is the least index of a port whose range is not ordered.
pub proof fn lemma_first_inverted(ports: Seq<PortDescriptorView>)
    ensures
        0 <= first_inverted(ports) <= ports.len(),
        first_inverted(ports) < ports.len() ==> !ports[first_inverted(ports)].ordered(),
        forall|j: int| 0 <= j < first_inverted(ports) ==> (#[trigger] ports[j]).ordered(),
    decreases ports.len(),
{
    if ports.len() > 0 {
        lemma_first_inverted(ports.drop_last());
        assert forall|j: int| 0 <= j < first_inverted(ports) implies (#[trigger] ports[j]).ordered() by {
            if j < ports.len() - 1 {
                assert(ports.drop_last()[j] == ports[j]);
            }
        }
        if first_inverted(ports.drop_last()) < ports.len() - 1 {
            assert(ports.drop_last()[first_inverted(ports.drop_last())] == ports[first_inverted(
                ports,
            )]);
        }
    }
}

/// `first_too_wide` is the least index of a port of more than 64 bits.
pub proof fn lemma_first_too_wide(ports: Seq<PortDescriptorView>)
    ensures
        0 <= first_too_wide(ports) <= ports.len(),
        first_too_wide(ports) < ports.len() ==> ports[first_too_wide(ports)].width() > 64,
        forall|j: int| 0 <= j < first_too_wide(ports) ==> (#[trigger] ports[j]).width() <= 64,
    decreases ports.len(),
{
    if ports.len() > 0 {
        lemma_first_too_wide(ports.drop_last());
        assert forall|j: int| 0 <= j < first_too_wide(ports) implies (#[trigger] ports[j]).width()
            <= 64 by {
            if j < ports.len() - 1 {
                assert(ports.drop_last()[j] == ports[j]);
            }
        }
        if first_too_wide(ports.drop_last()) < ports.len() - 1 {
            assert(ports.drop_last()[first_too_wide(ports.drop_last())] == ports[first_too_wide(
                ports,
            )]);
        }
    }
}

/// The bit ranges pass exactly when every port is valid.
pub proof fn lemma_ports_accepted(module: Seq<char>, ports: Seq<PortDescriptorView>)
    ensures
        ports_error(module, ports) is None <==> forall|j: int|
            0 <= j < ports.len() ==> (#[trigger] ports[j]).valid(),
{
    lemma_first_inverted(ports);
    lemma_first_too_wide(ports);
    if ports_error(module, ports) is None {
        assert forall|j: int| 0 <= j < ports.len() implies (#[trigger] ports[j]).valid() by {
            assert(ports[j].ordered());
            assert(ports[j].width() <= 64);
        }
    }
}

/// A signature passes validation exactly when its module name and port
/// names need no escaping and every port is valid.
pub proof fn lemma_signature_accepted(module: Seq<char>, ports: Seq<PortDescriptorView>)
    ensures
        signature_error(module, ports) is None <==> !is_escaped_name(module) && (forall|j: int|
            0 <= j < ports.len() ==> !is_escaped_name(#[trigger] ports[j].name)) && (forall|j: int|
            0 <= j < ports.len() ==> (#[trigger] ports[j]).valid()),
{
    lemma_first_escaped(ports);
    lemma_ports_accepted(module, ports);
}

/// Validates the bit ranges of `ports`.
pub fn validate_ports(module: &str, ports: &Vec<PortDescriptor>) -> (outcome: Result<
    (),
    RuntimeError,
>)
    ensures
        outcome is Ok <==> ports_error(module@, ports.deep_view()) is None,
        outcome matches Err(e) ==> Some(e@) == ports_error(module@, ports.deep_view()),
{
    let ghost views = ports.deep_view();
    let mut i: usize = 0;
    while i < ports.len()
        invariant
            i <= ports.len(),
            views == ports.deep_view(),
            first_inverted(views.take(i as int)) == i,
        decreases ports.len() - i,
    {
        proof {
            assert(views.take(i + 1).drop_last() =~= views.take(i as int));
            assert(views.take(i + 1).last() == ports[i as int]@);
        }
        if ports[i].msb < ports[i].lsb {
            proof {
                lemma_first_inverted_prefix(views, i as int);
                assert(views[i as int] == ports[i as int]@);
            }
            return Err(
                RuntimeError::InvertedPortRange {
                    module: module.to_owned(),
                    port: ports[i].name.clone(),
                },
            );
        }
        i = i + 1;
    }
    assert(views.take(ports.len() as int) =~= views);
    let mut i: usize = 0;
    while i < ports.len()
        invariant
            i <= ports.len(),
            views == ports.deep_view(),
            first_inverted(views) == views.len(),
            first_too_wide(views.take(i as int)) == i,
        decreases ports.len() - i,
    {
        proof {
            assert(views.take(i + 1).drop_last() =~= views.take(i as int));
            assert(views.take(i + 1).last() == ports[i as int]@);
            lemma_first_inverted(views);
            assert(views[i as int].ordered());
        }
        if ports[i].msb - ports[i].lsb > 63 {
            proof {
                lemma_first_too_wide_prefix(views, i as int);
                assert(views[i as int] == ports[i as int]@);
            }
            return Err(
                RuntimeError::PortTooWide { module: module.to_owned(), port: ports[i].name.clone() },
            );
        }
        i = i + 1;
    }
    assert(views.take(ports.len() as int) =~= views);
    Ok(())
}

/// Validates a signature before anything else is done with it.
pub fn validate_signature(module: &str, ports: &Vec<PortDescriptor>) -> (outcome: Result<
    (),
    RuntimeError,
>)
    ensures
        outcome is Ok <==> signature_error(module@, ports.deep_view()) is None,
        outcome matches Err(e) ==> Some(e@) == signature_error(module@, ports.deep_view()),
{
    let ghost views = ports.deep_view();
    if check_escaped_name(module) {
        return Err(RuntimeError::EscapedModuleName { module: module.to_owned() });
    }
    let mut i: usize = 0;
    while i < ports.len()
        invariant
            i <= ports.len(),
            views == ports.deep_view(),
            !is_escaped_name(module@),
            first_escaped(views.take(i as int)) == i,
        decreases ports.len() - i,
    {
        proof {
            assert(views.take(i + 1).drop_last() =~= views.take(i as int));
            assert(views.take(i + 1).last() == ports[i as int]@);
        }
        if check_escaped_name(ports[i].name.as_str()) {
            proof {
                lemma_first_escaped_prefix(views, i as int);
                assert(views[i as int] == ports[i as int]@);
            }
            return Err(
                RuntimeError::EscapedPortName {
                    module: module.to_owned(),
                    port: ports[i].name.clone(),
                },
            );
        }
        i = i + 1;
    }
    assert(views.take(ports.len() as int) =~= views);
    validate_ports(module, ports)
}

/// An offender found in a prefix is the first offender of the whole list.
proof fn lemma_first_escaped_prefix(ports: Seq<PortDescriptorView>, i: int)
    requires
        0 <= i < ports.len(),
        first_escaped(ports.take(i + 1)) == i,
    ensures
        first_escaped(ports) == i,
{
    lemma_first_escaped_prefix_step(ports, i, i + 1);
}

proof fn lemma_first_escaped_prefix_step(ports: Seq<PortDescriptorView>, i: int, n: int)
    requires
        0 <= i < n,
        n <= ports.len(),
        first_escaped(ports.take(n)) == i,
    ensures
        first_escaped(ports) == i,
    decreases ports.len() - n,
{
    if n < ports.len() {
        assert(ports.take(n + 1).drop_last() =~= ports.take(n));
        lemma_first_escaped_prefix_step(ports, i, n + 1);
    } else {
        assert(ports.take(n) =~= ports);
    }
}

proof fn lemma_first_inverted_prefix(ports: Seq<PortDescriptorView>, i: int)
    requires
        0 <= i < ports.len(),
        first_inverted(ports.take(i + 1)) == i,
    ensures
        first_inverted(ports) == i,
{
    lemma_first_inverted_prefix_step(ports, i, i + 1);
}

proof fn lemma_first_inverted_prefix_step(ports: Seq<PortDescriptorView>, i: int, n: int)
    requires
        0 <= i < n,
        n <= ports.len(),
        first_inverted(ports.take(n)) == i,
    ensures
        first_inverted(ports) == i,
    decreases ports.len() - n,
{
    if n < ports.len() {
        assert(ports.take(n + 1).drop_last() =~= ports.take(n));
        lemma_first_inverted_prefix_step(ports, i, n + 1);
    } else {
        assert(ports.take(n) =~= ports);
    }
}

proof fn lemma_first_too_wide_prefix(ports: Seq<PortDescriptorView>, i: int)
    requires
        0 <= i < ports.len(),
        first_too_wide(ports.take(i + 1)) == i,
    ensures
        first_too_wide(ports) == i,
{
    lemma_first_too_wide_prefix_step(ports, i, i + 1);
}

proof fn lemma_first_too_wide_prefix_step(ports: Seq<PortDescriptorView>, i: int, n: int)
    requires
        0 <= i < n,
        n <= ports.len(),
        first_too_wide(ports.take(n)) == i,
    ensures
        first_too_wide(ports) == i,
    decreases ports.len() - n,
{
    if n < ports.len() {
        assert(ports.take(n + 1).drop_last() =~= ports.take(n));
        lemma_first_too_wide_prefix_step(ports, i, n + 1);
    } else {
        assert(ports.take(n) =~= ports);
    }
}

/// The byte that stands for a direction in the cache key.
pub open spec fn direction_tag(direction: PortDirection) -> u8 {
    match direction {
        PortDirection::Input => 0,
        PortDirection::Output => 1,
        PortDirection::Inout => 2,
    }
}

/// What a text feeds into the hasher: its UTF-8 bytes, then one byte that
/// no UTF-8 text holds.
pub open spec fn text_writes(text: Seq<char>) -> Seq<Seq<u8>> {
    seq![encode_utf8(text), seq![0xffu8]]
}

/// What one port feeds into the hasher.
pub open spec fn port_writes(port: PortDescriptorView) -> Seq<Seq<u8>> {
    text_writes(port.name) + seq![
        spec_u64_to_le_bytes(port.msb as u64),
        spec_u64_to_le_bytes(port.lsb as u64),
        seq![direction_tag(port.direction)],
    ]
}

/// What a list of ports feeds into the hasher, port by port.
pub open spec fn ports_writes(ports: Seq<PortDescriptorView>) -> Seq<Seq<u8>>
    decreases ports.len(),
{
    if ports.len() == 0 {
        Seq::empty()
    } else {
        ports_writes(ports.drop_last()) + port_writes(ports.last())
    }
}

/// What a list of texts feeds into the hasher, text by text.
pub open spec fn texts_writes(texts: Seq<Seq<char>>) -> Seq<Seq<u8>>
    decreases texts.len(),
{
    if texts.len() == 0 {
        Seq::empty()
    } else {
        texts_writes(texts.drop_last()) + text_writes(texts.last())
    }
}

/// Everything that the cache key is computed from, in the order in which it
/// is fed to the hasher: the number of ports, the ports, the optimization
/// level, the number of ignored warnings, the warnings, and the tracing
/// flag.
pub open spec fn signature_writes(
    ports: Seq<PortDescriptorView>,
    config: VerilatedModelConfigView,
) -> Seq<Seq<u8>> {
    seq![spec_u64_to_le_bytes(ports.len() as u64)] + ports_writes(ports) + seq![
        spec_u64_to_le_bytes(config.verilator_optimization as u64),
        spec_u64_to_le_bytes(config.ignored_warnings.len() as u64),
    ] + texts_writes(config.ignored_warnings) + seq![
        seq![
            if config.enable_tracing {
                1u8
            } else {
                0u8
            },
        ],
    ]
}

/// The cache key of a signature: the hash of its ports and its build
/// configuration. Neither the module name nor the source path takes part.
pub open spec fn spec_cache_key(
    ports: Seq<PortDescriptorView>,
    config: VerilatedModelConfigView,
) -> u64 {
    DefaultHasher::spec_finish(signature_writes(ports, config))
}

fn feed_number(hasher: &mut DefaultHasher, number: usize)
    ensures
        final(hasher)@ == old(hasher)@.push(spec_u64_to_le_bytes(number as u64)),
{
    let bytes = u64_to_le_bytes(number as u64);
    hasher.write(bytes.as_slice());
}

fn feed_byte(hasher: &mut DefaultHasher, byte: u8)
    ensures
        final(hasher)@ == old(hasher)@.push(seq![byte]),
{
    let mut bytes: Vec<u8> = Vec::new();
    bytes.push(byte);
    assert(bytes@ =~= seq![byte]);
    hasher.write(bytes.as_slice());
}

fn feed_text(hasher: &mut DefaultHasher, text: &str)
    ensures
        final(hasher)@ == old(hasher)@ + text_writes(text@),
{
    hasher.write(text.as_bytes());
    feed_byte(hasher, 0xff);
    assert(hasher@ =~= old(hasher)@ + text_writes(text@));
}

fn feed_port(hasher: &mut DefaultHasher, port: &PortDescriptor)
    ensures
        final(hasher)@ == old(hasher)@ + port_writes(port@),
{
    feed_text(hasher, port.name.as_str());
    feed_number(hasher, port.msb);
    feed_number(hasher, port.lsb);
    let tag: u8 = match port.direction {
        PortDirection::Input => 0,
        PortDirection::Output => 1,
        PortDirection::Inout => 2,
    };
    feed_byte(hasher, tag);
    assert(hasher@ =~= old(hasher)@ + port_writes(port@));
}

/// Computes the cache key of a signature.
pub fn cache_key(ports: &Vec<PortDescriptor>, config: &VerilatedModelConfig) -> (key: u64)
    ensures
        key == spec_cache_key(ports.deep_view(), config@),
{
    let ghost views = ports.deep_view();
    let ghost warnings = config.ignored_warnings.deep_view();
    let mut hasher = DefaultHasher::new();
    feed_number(&mut hasher, ports.len());
    let ghost head = hasher@;
    assert(head =~= seq![spec_u64_to_le_bytes(views.len() as u64)]);
    let mut i: usize = 0;
    while i < ports.len()
        invariant
            i <= ports.len(),
            views == ports.deep_view(),
            hasher@ == head + ports_writes(views.take(i as int)),
        decreases ports.len() - i,
    {
        proof {
            assert(views.take(i + 1).drop_last() =~= views.take(i as int));
            assert(views.take(i + 1).last() == ports[i as int]@);
        }
        feed_port(&mut hasher, &ports[i]);
        assert(hasher@ =~= head + ports_writes(views.take(i + 1)));
        i = i + 1;
    }
    assert(views.take(ports.len() as int) =~= views);
    feed_number(&mut hasher, config.verilator_optimization);
    feed_number(&mut hasher, config.ignored_warnings.len());
    let ghost middle = hasher@;
    let mut j: usize = 0;
    while j < config.ignored_warnings.len()
        invariant
            j <= config.ignored_warnings.len(),
            warnings == config.ignored_warnings.deep_view(),
            hasher@ == middle + texts_writes(warnings.take(j as int)),
        decreases config.ignored_warnings.len() - j,
    {
        proof {
            assert(warnings.take(j + 1).drop_last() =~= warnings.take(j as int));
            assert(warnings.take(j + 1).last() == config.ignored_warnings[j as int]@);
        }
        feed_text(&mut hasher, config.ignored_warnings[j].as_str());
        assert(hasher@ =~= middle + texts_writes(warnings.take(j + 1)));
        j = j + 1;
    }
    assert(warnings.take(config.ignored_warnings.len() as int) =~= warnings);
    feed_byte(
        &mut hasher,
        if config.enable_tracing {
            1
        } else {
            0
        },
    );
    assert(hasher@ =~= signature_writes(views, config@));
    hasher.finish()
}

/// How one character of a name or a path is written in a directory name:
/// an underscore is doubled, a slash becomes an underscore and a hyphen,
/// and every other character stands for itself. An underscore in the
/// result is thus always the first of a pair, and the pair tells which
/// character it stands for.
pub open spec fn escape(c: char) -> Seq<char> {
    if c == '_' {
        seq!['_', '_']
    } else if c == '/' {
        seq!['_', '-']
    } else {
        seq![c]
    }
}

/// What a module name or a source path contributes to a directory name:
/// its characters, each written as [`escape`] says. Nothing of it is lost:
/// see `lemma_directory_name_determined`.
pub open spec fn sanitized_path(path: Seq<char>) -> Seq<char>
    decreases path.len(),
{
    if path.len() == 0 {
        Seq::empty()
    } else {
        sanitized_path(path.drop_last()) + escape(path.last())
    }
}

/// What stands between the parts of a directory name: an underscore and a
/// full stop, a pair that no escaped character begins with.
pub open spec fn name_separator() -> Seq<char> {
    seq!['_', '.']
}

/// The name of the directory that holds the artifacts of one signature: the
/// module name, the source path and the cache key in decimal, the first
/// two escaped, with a separator between them.
pub open spec fn spec_artifact_directory_name(
    module: Seq<char>,
    source_path: Seq<char>,
    key: u64,
) -> Seq<char> {
    sanitized_path(module) + name_separator() + sanitized_path(source_path) + name_separator()
        + decimal(key as nat)
}

/// Builds [`sanitized_path`].
pub fn sanitize_path(path: &str) -> (text: String)
    ensures
        text@ == sanitized_path(path@),
{
    let mut text = String::new();
    for c in iter: path.chars()
        invariant
            iter.seq() == path@,
            text@ == sanitized_path(path@.take(iter.index())),
    {
        proof {
            assert(path@.take(iter.index() + 1).drop_last() =~= path@.take(iter.index()));
            assert(path@.take(iter.index() + 1).last() == c);
        }
        let ghost before = text@;
        if c == '_' {
            text.push('_');
            text.push('_');
            assert(text@ =~= before + seq!['_', '_']);
        } else if c == '/' {
            text.push('_');
            text.push('-');
            assert(text@ =~= before + seq!['_', '-']);
        } else {
            text.push(c);
            assert(text@ =~= before + seq![c]);
        }
    }
    assert(path@.take(path@.len() as int) =~= path@);
    text
}

/// Builds the name of the artifact directory of one signature.
pub fn artifact_directory_name(module: &str, source_path: &str, key: u64) -> (name: String)
    ensures
        name@ == spec_artifact_directory_name(module@, source_path@, key),
{
    let mut name = sanitize_path(module);
    let ghost first = name@;
    name.push('_');
    name.push('.');
    assert(name@ =~= first + name_separator());
    let sanitized = sanitize_path(source_path);
    name.append(sanitized.as_str());
    let ghost second = name@;
    name.push('_');
    name.push('.');
    assert(name@ =~= second + name_separator());
    let number = decimal_string(key);
    name.append(number.as_str());
    name
}

} // verus!
