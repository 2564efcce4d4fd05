//! The cache key is computed from nothing less than the whole signature:
//! what is fed to the hasher determines the ports and the configuration.

use crate::config::VerilatedModelConfigView;
use crate::port::PortDescriptorView;
use crate::signature::{
    direction_tag, escape, name_separator, port_writes, ports_writes, sanitized_path,
    signature_writes, spec_artifact_directory_name, text_writes, texts_writes,
};
use crate::text::{decimal, lemma_decimal_determined, lemma_decimal_digits};
use vstd::bytes::{
    lemma_auto_spec_u64_to_from_le_bytes, spec_u64_from_le_bytes, spec_u64_to_le_bytes,
};
use vstd::prelude::*;
use vstd::utf8::{decode_utf8, encode_utf8, encode_utf8_decode_utf8};

verus! {

/// Whether the numbers of a signature fit the 64 bits in which they are
/// fed to the hasher. This holds of every signature that the machine can
/// hold.
pub open spec fn representable(
    ports: Seq<PortDescriptorView>,
    config: VerilatedModelConfigView,
) -> bool {
    &&& ports.len() <= u64::MAX
    &&& forall|i: int|
        0 <= i < ports.len() ==> 0 <= (#[trigger] ports[i]).msb <= u64::MAX && 0 <= ports[i].lsb
            <= u64::MAX
    &&& 0 <= config.verilator_optimization <= u64::MAX
    &&& config.ignored_warnings.len() <= u64::MAX
}

proof fn lemma_number_determined(a: int, b: int)
    requires
        0 <= a <= u64::MAX,
        0 <= b <= u64::MAX,
        spec_u64_to_le_bytes(a as u64) == spec_u64_to_le_bytes(b as u64),
    ensures
        a == b,
{
    lemma_auto_spec_u64_to_from_le_bytes();
    assert(spec_u64_from_le_bytes(spec_u64_to_le_bytes(a as u64)) == a as u64);
    assert(spec_u64_from_le_bytes(spec_u64_to_le_bytes(b as u64)) == b as u64);
}

proof fn lemma_text_determined(a: Seq<char>, b: Seq<char>)
    requires
        encode_utf8(a) == encode_utf8(b),
    ensures
        a == b,
{
    encode_utf8_decode_utf8(a);
    encode_utf8_decode_utf8(b);
    assert(decode_utf8(encode_utf8(a)) == a);
    assert(decode_utf8(encode_utf8(b)) == b);
}

proof fn lemma_ports_writes_len(ports: Seq<PortDescriptorView>)
    ensures
        ports_writes(ports).len() == 5 * ports.len(),
    decreases ports.len(),
{
    if ports.len() > 0 {
        lemma_ports_writes_len(ports.drop_last());
    }
}

proof fn lemma_texts_writes_len(texts: Seq<Seq<char>>)
    ensures
        texts_writes(texts).len() == 2 * texts.len(),
    decreases texts.len(),
{
    if texts.len() > 0 {
        lemma_texts_writes_len(texts.drop_last());
    }
}

proof fn lemma_port_determined(a: PortDescriptorView, b: PortDescriptorView)
    requires
        0 <= a.msb <= u64::MAX,
        0 <= a.lsb <= u64::MAX,
        0 <= b.msb <= u64::MAX,
        0 <= b.lsb <= u64::MAX,
        port_writes(a) == port_writes(b),
    ensures
        a == b,
{
    let wa = port_writes(a);
    let wb = port_writes(b);
    assert(wa[0] == encode_utf8(a.name));
    assert(wb[0] == encode_utf8(b.name));
    lemma_text_determined(a.name, b.name);
    assert(wa[2] == spec_u64_to_le_bytes(a.msb as u64));
    assert(wb[2] == spec_u64_to_le_bytes(b.msb as u64));
    lemma_number_determined(a.msb, b.msb);
    assert(wa[3] == spec_u64_to_le_bytes(a.lsb as u64));
    assert(wb[3] == spec_u64_to_le_bytes(b.lsb as u64));
    lemma_number_determined(a.lsb, b.lsb);
    assert(wa[4] == seq![direction_tag(a.direction)]);
    assert(wb[4] == seq![direction_tag(b.direction)]);
    assert(wa[4][0] == direction_tag(a.direction));
    assert(wb[4][0] == direction_tag(b.direction));
}

proof fn lemma_ports_determined(a: Seq<PortDescriptorView>, b: Seq<PortDescriptorView>)
    requires
        a.len() == b.len(),
        forall|i: int|
            0 <= i < a.len() ==> 0 <= (#[trigger] a[i]).msb <= u64::MAX && 0 <= a[i].lsb
                <= u64::MAX,
        forall|i: int|
            0 <= i < b.len() ==> 0 <= (#[trigger] b[i]).msb <= u64::MAX && 0 <= b[i].lsb
                <= u64::MAX,
        ports_writes(a) == ports_writes(b),
    ensures
        a == b,
    decreases a.len(),
{
    if a.len() == 0 {
        assert(a =~= b);
    } else {
        lemma_ports_writes_len(a.drop_last());
        lemma_ports_writes_len(b.drop_last());
        let n: int = 5 * (a.len() - 1);
        let wa = ports_writes(a);
        let wb = ports_writes(b);
        assert(wa.subrange(0, n) =~= ports_writes(a.drop_last()));
        assert(wb.subrange(0, n) =~= ports_writes(b.drop_last()));
        assert(wa.subrange(n, n + 5) =~= port_writes(a.last()));
        assert(wb.subrange(n, n + 5) =~= port_writes(b.last()));
        assert(a.last() == a[a.len() - 1]);
        assert(b.last() == b[b.len() - 1]);
        lemma_port_determined(a.last(), b.last());
        assert forall|i: int| 0 <= i < a.drop_last().len() implies 0 <= (
        #[trigger] a.drop_last()[i]).msb <= u64::MAX && 0 <= a.drop_last()[i].lsb
            <= u64::MAX by {
            assert(a.drop_last()[i] == a[i]);
        }
        assert forall|i: int| 0 <= i < b.drop_last().len() implies 0 <= (
        #[trigger] b.drop_last()[i]).msb <= u64::MAX && 0 <= b.drop_last()[i].lsb
            <= u64::MAX by {
            assert(b.drop_last()[i] == b[i]);
        }
        lemma_ports_determined(a.drop_last(), b.drop_last());
        assert(a =~= a.drop_last().push(a.last()));
        assert(b =~= b.drop_last().push(b.last()));
    }
}

proof fn lemma_texts_determined(a: Seq<Seq<char>>, b: Seq<Seq<char>>)
    requires
        a.len() == b.len(),
        texts_writes(a) == texts_writes(b),
    ensures
        a == b,
    decreases a.len(),
{
    if a.len() == 0 {
        assert(a =~= b);
    } else {
        lemma_texts_writes_len(a.drop_last());
        lemma_texts_writes_len(b.drop_last());
        let n: int = 2 * (a.len() - 1);
        let wa = texts_writes(a);
        let wb = texts_writes(b);
        assert(wa.subrange(0, n) =~= texts_writes(a.drop_last()));
        assert(wb.subrange(0, n) =~= texts_writes(b.drop_last()));
        assert(wa[n] == text_writes(a.last())[0]);
        assert(wb[n] == text_writes(b.last())[0]);
        lemma_text_determined(a.last(), b.last());
        lemma_texts_determined(a.drop_last(), b.drop_last());
        assert(a =~= a.drop_last().push(a.last()));
        assert(b =~= b.drop_last().push(b.last()));
    }
}

/// What is fed to the hasher determines the signature: two signatures
/// that feed the same bytes have the same ports, in the same order, and
/// the same configuration. So two signatures can share a cache key only
/// by an accident of the hash function.
pub proof fn lemma_signature_determined(
    ports: Seq<PortDescriptorView>,
    config: VerilatedModelConfigView,
    other_ports: Seq<PortDescriptorView>,
    other_config: VerilatedModelConfigView,
)
    requires
        representable(ports, config),
        representable(other_ports, other_config),
        signature_writes(ports, config) == signature_writes(other_ports, other_config),
    ensures
        ports == other_ports,
        config == other_config,
{
    let wa = signature_writes(ports, config);
    let wb = signature_writes(other_ports, other_config);
    lemma_ports_writes_len(ports);
    lemma_ports_writes_len(other_ports);
    lemma_texts_writes_len(config.ignored_warnings);
    lemma_texts_writes_len(other_config.ignored_warnings);
    assert(wa[0] == spec_u64_to_le_bytes(ports.len() as u64));
    assert(wb[0] == spec_u64_to_le_bytes(other_ports.len() as u64));
    lemma_number_determined(ports.len() as int, other_ports.len() as int);
    let n: int = 5 * (ports.len() as int);
    assert(wa.subrange(1, 1 + n) =~= ports_writes(ports));
    assert(wb.subrange(1, 1 + n) =~= ports_writes(other_ports));
    lemma_ports_determined(ports, other_ports);
    assert(wa[1 + n] == spec_u64_to_le_bytes(config.verilator_optimization as u64));
    assert(wb[1 + n] == spec_u64_to_le_bytes(other_config.verilator_optimization as u64));
    lemma_number_determined(config.verilator_optimization, other_config.verilator_optimization);
    assert(wa[2 + n] == spec_u64_to_le_bytes(config.ignored_warnings.len() as u64));
    assert(wb[2 + n] == spec_u64_to_le_bytes(other_config.ignored_warnings.len() as u64));
    lemma_number_determined(
        config.ignored_warnings.len() as int,
        other_config.ignored_warnings.len() as int,
    );
    let m: int = 2 * (config.ignored_warnings.len() as int);
    assert(wa.subrange(3 + n, 3 + n + m) =~= texts_writes(config.ignored_warnings));
    assert(wb.subrange(3 + n, 3 + n + m) =~= texts_writes(other_config.ignored_warnings));
    lemma_texts_determined(config.ignored_warnings, other_config.ignored_warnings);
    assert(wa[3 + n + m][0] == if config.enable_tracing {
        1u8
    } else {
        0u8
    });
    assert(wb[3 + n + m][0] == if other_config.enable_tracing {
        1u8
    } else {
        0u8
    });
}

/// An escaped text begins with what its first character is written as.
pub proof fn lemma_sanitized_front(text: Seq<char>)
    requires
        text.len() > 0,
    ensures
        sanitized_path(text) == escape(text[0]) + sanitized_path(text.drop_first()),
    decreases text.len(),
{
    if text.len() == 1 {
        assert(text.drop_last() =~= Seq::<char>::empty());
        assert(text.drop_first() =~= Seq::<char>::empty());
        assert(sanitized_path(text) =~= escape(text[0]) + sanitized_path(text.drop_first()));
    } else {
        let front = text.drop_last();
        lemma_sanitized_front(front);
        assert(front[0] == text[0]);
        assert(front.drop_first() =~= text.drop_first().drop_last());
        assert(text.drop_first().last() == text.last());
        assert(sanitized_path(text) =~= escape(text[0]) + sanitized_path(text.drop_first()));
    }
}

/// An escaped text holds no slash.
pub proof fn lemma_sanitized_has_no_slash(text: Seq<char>, i: int)
    requires
        0 <= i < sanitized_path(text).len(),
    ensures
        sanitized_path(text)[i] != '/',
    decreases text.len(),
{
    if text.len() > 0 {
        let front = sanitized_path(text.drop_last());
        if i < front.len() {
            lemma_sanitized_has_no_slash(text.drop_last(), i);
            assert(sanitized_path(text)[i] == front[i]);
        } else {
            assert(sanitized_path(text)[i] == escape(text.last())[i - front.len()]);
        }
    }
}

/// An escaped text can be read back, and where it ends can be told: of an
/// escaped text, a separator and whatever follows, the text and what
/// follows are determined.
pub proof fn lemma_escaped_determined(
    text: Seq<char>,
    rest: Seq<char>,
    other_text: Seq<char>,
    other_rest: Seq<char>,
)
    requires
        sanitized_path(text) + name_separator() + rest == sanitized_path(other_text)
            + name_separator() + other_rest,
    ensures
        text == other_text,
        rest == other_rest,
    decreases text.len() + other_text.len(),
{
    let left = sanitized_path(text) + name_separator() + rest;
    let right = sanitized_path(other_text) + name_separator() + other_rest;
    if text.len() == 0 && other_text.len() == 0 {
        assert(left.skip(2) =~= rest);
        assert(right.skip(2) =~= other_rest);
        assert(text =~= other_text);
    } else if text.len() == 0 {
        lemma_sanitized_front(other_text);
        let tail = sanitized_path(other_text.drop_first()) + name_separator() + other_rest;
        assert(right =~= escape(other_text[0]) + tail);
        assert(left[0] == '_' && left[1] == '.');
        assert(right[0] == escape(other_text[0])[0]);
        if other_text[0] == '_' || other_text[0] == '/' {
            assert(right[1] == escape(other_text[0])[1]);
        }
        assert(false);
    } else if other_text.len() == 0 {
        lemma_sanitized_front(text);
        let tail = sanitized_path(text.drop_first()) + name_separator() + rest;
        assert(left =~= escape(text[0]) + tail);
        assert(right[0] == '_' && right[1] == '.');
        assert(left[0] == escape(text[0])[0]);
        if text[0] == '_' || text[0] == '/' {
            assert(left[1] == escape(text[0])[1]);
        }
        assert(false);
    } else {
        lemma_sanitized_front(text);
        lemma_sanitized_front(other_text);
        let tail = sanitized_path(text.drop_first()) + name_separator() + rest;
        let other_tail = sanitized_path(other_text.drop_first()) + name_separator() + other_rest;
        assert(left =~= escape(text[0]) + tail);
        assert(right =~= escape(other_text[0]) + other_tail);
        assert(left[0] == escape(text[0])[0]);
        assert(right[0] == escape(other_text[0])[0]);
        let wide = text[0] == '_' || text[0] == '/';
        let other_wide = other_text[0] == '_' || other_text[0] == '/';
        if wide {
            assert(left[1] == escape(text[0])[1]);
        }
        if other_wide {
            assert(right[1] == escape(other_text[0])[1]);
        }
        assert(text[0] == other_text[0]);
        let width = escape(text[0]).len() as int;
        assert(left.skip(width) =~= tail);
        assert(right.skip(width) =~= other_tail);
        lemma_escaped_determined(text.drop_first(), rest, other_text.drop_first(), other_rest);
        assert(text =~= seq![text[0]] + text.drop_first());
        assert(other_text =~= seq![other_text[0]] + other_text.drop_first());
    }
}

/// The name of an artifact directory tells what it is the directory of:
/// two directories of one name belong to one module, one source path and
/// one cache key. So two modules of one name in different files never
/// share a directory, nor do two configurations with different keys.
pub proof fn lemma_directory_name_determined(
    module: Seq<char>,
    source_path: Seq<char>,
    key: u64,
    other_module: Seq<char>,
    other_source_path: Seq<char>,
    other_key: u64,
)
    requires
        spec_artifact_directory_name(module, source_path, key) == spec_artifact_directory_name(
            other_module,
            other_source_path,
            other_key,
        ),
    ensures
        module == other_module,
        source_path == other_source_path,
        key == other_key,
{
    let rest = sanitized_path(source_path) + name_separator() + decimal(key as nat);
    let other_rest = sanitized_path(other_source_path) + name_separator() + decimal(
        other_key as nat,
    );
    assert(spec_artifact_directory_name(module, source_path, key) =~= sanitized_path(module)
        + name_separator() + rest);
    assert(spec_artifact_directory_name(other_module, other_source_path, other_key)
        =~= sanitized_path(other_module) + name_separator() + other_rest);
    lemma_escaped_determined(module, rest, other_module, other_rest);
    lemma_escaped_determined(
        source_path,
        decimal(key as nat),
        other_source_path,
        decimal(other_key as nat),
    );
    lemma_decimal_determined(key as nat, other_key as nat);
}

/// The name of an artifact directory is one path component: it is not
/// empty and holds no slash.
pub proof fn lemma_directory_name_is_a_component(
    module: Seq<char>,
    source_path: Seq<char>,
    key: u64,
)
    ensures
        spec_artifact_directory_name(module, source_path, key).len() > 0,
        forall|i: int|
            0 <= i < spec_artifact_directory_name(module, source_path, key).len()
                ==> spec_artifact_directory_name(module, source_path, key)[i] != '/',
{
    let name = spec_artifact_directory_name(module, source_path, key);
    let first = sanitized_path(module);
    let second = sanitized_path(source_path);
    let number = decimal(key as nat);
    assert forall|i: int| 0 <= i < name.len() implies name[i] != '/' by {
        if i < first.len() {
            lemma_sanitized_has_no_slash(module, i);
            assert(name[i] == first[i]);
        } else if i < first.len() + 2 {
            assert(name[i] == name_separator()[i - first.len()]);
        } else if i < first.len() + 2 + second.len() {
            lemma_sanitized_has_no_slash(source_path, i - first.len() - 2);
            assert(name[i] == second[i - first.len() - 2]);
        } else if i < first.len() + 2 + second.len() + 2 {
            assert(name[i] == name_separator()[i - first.len() - 2 - second.len()]);
        } else {
            lemma_decimal_digits(key as nat, i - first.len() - 4 - second.len());
            assert(name[i] == number[i - first.len() - 4 - second.len()]);
        }
    }
}

} // verus!
