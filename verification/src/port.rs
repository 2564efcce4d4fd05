//! Ports of a hardware module: direction, bit range and the integer type
//! that carries a port's value across the native boundary.

use vstd::prelude::*;

verus! {

/// The direction of a port, seen from the module.
#[derive(Debug, Clone, Copy, PartialEq, Eq, Hash, PartialOrd, Ord, Structural)]
pub enum PortDirection {
    Input,
    Output,
    Inout,
}

impl PortDirection {
    /// Whether the host may drive the port: inputs and bidirectional ports.
    pub open spec fn writable(self) -> bool {
        self == PortDirection::Input || self == PortDirection::Inout
    }

    /// Whether the host may observe the port: outputs and bidirectional ports.
    pub open spec fn readable(self) -> bool {
        self == PortDirection::Output || self == PortDirection::Inout
    }

    /// The keyword of the direction.
    pub open spec fn keyword(self) -> Seq<char> {
        match self {
            PortDirection::Input => "input"@,
            PortDirection::Output => "output"@,
            PortDirection::Inout => "inout"@,
        }
    }

    /// Decides [`Self::writable`].
    pub fn is_writable(&self) -> (yes: bool)
        ensures
            yes == self.writable(),
    {
        match self {
            PortDirection::Input => true,
            PortDirection::Output => false,
            PortDirection::Inout => true,
        }
    }

    /// Decides [`Self::readable`].
    pub fn is_readable(&self) -> (yes: bool)
        ensures
            yes == self.readable(),
    {
        match self {
            PortDirection::Input => false,
            PortDirection::Output => true,
            PortDirection::Inout => true,
        }
    }

    /// The keyword of the direction: `input`, `output` or `inout`.
    pub fn name(&self) -> (text: &'static str)
        ensures
            text@ == self.keyword(),
    {
        match self {
            PortDirection::Input => "input",
            PortDirection::Output => "output",
            PortDirection::Inout => "inout",
        }
    }
}

/// The unsigned integer type that carries a port of a given width.
#[derive(Debug, Clone, Copy, PartialEq, Eq, Hash, Structural)]
pub enum WidthBucket {
    /// Widths 1 to 8.
    U8,
    /// Widths 9 to 16.
    U16,
    /// Widths 17 to 32.
    U32,
    /// Widths 33 to 64.
    U64,
}

impl WidthBucket {
    /// The number of bits of the integer type.
    pub open spec fn spec_bits(self) -> int {
        match self {
            WidthBucket::U8 => 8,
            WidthBucket::U16 => 16,
            WidthBucket::U32 => 32,
            WidthBucket::U64 => 64,
        }
    }

    /// The smallest width that is carried by this type.
    pub open spec fn spec_lower(self) -> int {
        match self {
            WidthBucket::U8 => 1,
            WidthBucket::U16 => 9,
            WidthBucket::U32 => 17,
            WidthBucket::U64 => 33,
        }
    }

    /// Whether a port of `width` bits is carried by this type.
    pub open spec fn holds(self, width: int) -> bool {
        self.spec_lower() <= width <= self.spec_bits()
    }

    /// The number of bits of the integer type, which is also the largest
    /// width that it carries.
    pub fn bits(&self) -> (n: usize)
        ensures
            n == self.spec_bits(),
    {
        match self {
            WidthBucket::U8 => 8,
            WidthBucket::U16 => 16,
            WidthBucket::U32 => 32,
            WidthBucket::U64 => 64,
        }
    }

    /// The smallest width that this type carries.
    pub fn lower(&self) -> (n: usize)
        ensures
            n == self.spec_lower(),
    {
        match self {
            WidthBucket::U8 => 1,
            WidthBucket::U16 => 9,
            WidthBucket::U32 => 17,
            WidthBucket::U64 => 33,
        }
    }
}

/// The type that carries `width` bits: the smallest of the four whose
/// number of bits reaches `width`. There is none above 64 bits, nor for a
/// width of zero.
pub open spec fn spec_bucket_for(width: int) -> Option<WidthBucket> {
    if width < 1 || width > 64 {
        None
    } else if width <= 8 {
        Some(WidthBucket::U8)
    } else if width <= 16 {
        Some(WidthBucket::U16)
    } else if width <= 32 {
        Some(WidthBucket::U32)
    } else {
        Some(WidthBucket::U64)
    }
}

/// Chooses the integer type for a port of `width` bits.
pub fn bucket_for(width: usize) -> (bucket: Option<WidthBucket>)
    ensures
        bucket == spec_bucket_for(width as int),
        bucket is Some <==> 1 <= width <= 64,
        bucket matches Some(b) ==> b.holds(width as int),
{
    if width < 1 || width > 64 {
        None
    } else if width <= 8 {
        Some(WidthBucket::U8)
    } else if width <= 16 {
        Some(WidthBucket::U16)
    } else if width <= 32 {
        Some(WidthBucket::U32)
    } else {
        Some(WidthBucket::U64)
    }
}

/// The chosen type is the smallest that is wide enough, and each width from
/// 1 to 64 lies in the range of exactly one type.
pub proof fn lemma_bucket_minimal(width: int, other: WidthBucket)
    requires
        1 <= width <= 64,
    ensures
        spec_bucket_for(width) is Some,
        spec_bucket_for(width)->0.spec_bits() >= width,
        other.spec_bits() >= width ==> spec_bucket_for(width)->0.spec_bits() <= other.spec_bits(),
        other.holds(width) <==> spec_bucket_for(width) == Some(other),
{
}

/// One port of a module: its name, the positions of its most and least
/// significant bits, and its direction.
#[derive(Debug, Clone)]
pub struct PortDescriptor {
    pub name: String,
    pub msb: usize,
    pub lsb: usize,
    pub direction: PortDirection,
}

/// What a [`PortDescriptor`] holds.
pub ghost struct PortDescriptorView {
    pub name: Seq<char>,
    pub msb: int,
    pub lsb: int,
    pub direction: PortDirection,
}

impl PortDescriptorView {
    /// The number of bits of the port.
    pub open spec fn width(self) -> int {
        self.msb - self.lsb + 1
    }

    /// The bit range is given from high to low.
    pub open spec fn ordered(self) -> bool {
        self.msb >= self.lsb
    }

    /// The port can be carried by one of the four integer types.
    pub open spec fn valid(self) -> bool {
        self.ordered() && self.width() <= 64
    }

    /// The integer type of a valid port.
    pub open spec fn bucket(self) -> WidthBucket
        recommends
            self.valid(),
    {
        spec_bucket_for(self.width())->0
    }
}

impl View for PortDescriptor {
    type V = PortDescriptorView;

    open spec fn view(&self) -> PortDescriptorView {
        PortDescriptorView {
            name: self.name@,
            msb: self.msb as int,
            lsb: self.lsb as int,
            direction: self.direction,
        }
    }
}

impl DeepView for PortDescriptor {
    type V = PortDescriptorView;

    open spec fn deep_view(&self) -> PortDescriptorView {
        self@
    }
}

impl PortDescriptor {
    /// Describes a port. Nothing is checked here: see [`Self::is_valid`].
    pub fn new(name: &str, msb: usize, lsb: usize, direction: PortDirection) -> (port: Self)
        ensures
            port@ == (PortDescriptorView {
                name: name@,
                msb: msb as int,
                lsb: lsb as int,
                direction,
            }),
    {
        PortDescriptor { name: name.to_owned(), msb, lsb, direction }
    }

    /// A copy of the port.
    pub fn duplicate(&self) -> (copy: Self)
        ensures
            copy@ == self@,
    {
        PortDescriptor {
            name: self.name.clone(),
            msb: self.msb,
            lsb: self.lsb,
            direction: self.direction,
        }
    }

    /// Whether the bit range is ordered and at most 64 bits wide.
    pub fn is_valid(&self) -> (valid: bool)
        ensures
            valid == self@.valid(),
    {
        self.msb >= self.lsb && self.msb - self.lsb <= 63
    }

    /// The number of bits of a port whose range is ordered and narrower than
    /// the machine word allows to count; `None` otherwise.
    pub fn width(&self) -> (width: Option<usize>)
        ensures
            width is Some <==> self@.ordered() && self@.width() <= usize::MAX,
            width matches Some(w) ==> w == self@.width(),
    {
        if self.msb >= self.lsb && self.msb - self.lsb < usize::MAX {
            Some(self.msb - self.lsb + 1)
        } else {
            None
        }
    }

    /// The integer type of the port; `None` where the port is not valid.
    pub fn bucket(&self) -> (bucket: Option<WidthBucket>)
        ensures
            bucket is Some <==> self@.valid(),
            bucket matches Some(b) ==> b == self@.bucket() && b.holds(self@.width()),
    {
        if self.is_valid() {
            bucket_for(self.msb - self.lsb + 1)
        } else {
            None
        }
    }
}

/// A copy of a list of ports.
pub fn duplicate_ports(ports: &Vec<PortDescriptor>) -> (copy: Vec<PortDescriptor>)
    ensures
        copy.deep_view() == ports.deep_view(),
{
    let mut copy: Vec<PortDescriptor> = Vec::new();
    let mut i: usize = 0;
    while i < ports.len()
        invariant
            i <= ports.len(),
            copy.deep_view() =~= ports.deep_view().take(i as int),
        decreases ports.len() - i,
    {
        let ghost before = copy.deep_view();
        let port = ports[i].duplicate();
        copy.push(port);
        assert(copy.deep_view() =~= before.push(ports[i as int]@));
        i = i + 1;
    }
    assert(ports.deep_view().take(ports.len() as int) =~= ports.deep_view());
    copy
}

} // verus!
