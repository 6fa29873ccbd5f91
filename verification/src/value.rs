use vstd::prelude::*;

verus! {

/// The layout family of a UUID, read from the high bits of byte 8.
#[derive(Clone, Copy, Debug, PartialEq, Eq, Structural)]
pub enum Variant {
    /// `0xx`: reserved for NCS backward compatibility.
    NCS,
    /// `10x`: the layout of RFC 4122 and RFC 9562.
    RFC4122,
    /// `110`: reserved for Microsoft backward compatibility.
    Microsoft,
    /// `111`: reserved for future definition.
    Future,
}

/// The version field of a layout: the high nibble of byte 6.
pub open spec fn version_of(bytes: Seq<u8>) -> int
    recommends
        bytes.len() == 16,
{
    bytes[6] as int / 16
}

/// The variant of a layout, by the leading bits of byte 8.
pub open spec fn variant_of(bytes: Seq<u8>) -> Variant
    recommends
        bytes.len() == 16,
{
    let b = bytes[8] as int;
    if b < 0x80 {
        Variant::NCS
    } else if b < 0xc0 {
        Variant::RFC4122
    } else if b < 0xe0 {
        Variant::Microsoft
    } else {
        Variant::Future
    }
}

/// Whether a layout is one of the two that carry a Gregorian timestamp and a
/// node: version 1 or version 6, under the RFC variant.
pub open spec fn is_gregorian(bytes: Seq<u8>) -> bool
    recommends
        bytes.len() == 16,
{
    variant_of(bytes) == Variant::RFC4122 && (version_of(bytes) == 1 || version_of(bytes) == 6)
}

/// The node of a layout: its last six bytes, where the layout defines a node.
pub open spec fn node_of(bytes: Seq<u8>) -> Option<Seq<u8>>
    recommends
        bytes.len() == 16,
{
    if is_gregorian(bytes) {
        Some(bytes.subrange(10, 16))
    } else {
        None
    }
}

/// A UUID: sixteen bytes, never changed after construction.
#[derive(Clone, Copy, Debug, PartialEq, Eq, Hash)]
pub struct UuidValue {
    bytes: [u8; 16],
}

impl View for UuidValue {
    type V = Seq<u8>;

    closed spec fn view(&self) -> Seq<u8> {
        self.bytes@
    }
}

impl UuidValue {
    /// Every value views as exactly sixteen bytes.
    pub broadcast proof fn lemma_view_len(self)
        ensures
            #[trigger] self@.len() == 16,
    {
    }

    /// The bytes are all there is to a value: two values with the same bytes
    /// are the same value.
    pub proof fn lemma_view_injective(self, other: UuidValue)
        requires
            self@ == other@,
        ensures
            self == other,
    {
        assert(self.bytes =~= other.bytes);
    }

    /// Wraps sixteen bytes, taken as they are.
    pub fn from_bytes(bytes: [u8; 16]) -> (u: UuidValue)
        ensures
            u@ == bytes@,
    {
        UuidValue { bytes }
    }

    /// The sixteen bytes.
    pub fn as_bytes(&self) -> (bytes: [u8; 16])
        ensures
            bytes@ == self@,
    {
        self.bytes
    }

    /// The version field, 0 to 15, whatever the variant.
    pub fn get_version(&self) -> (v: u8)
        ensures
            v == version_of(self@),
            v <= 15,
    {
        let b: u8 = self.bytes[6];
        assert(b >> 4 == b / 16) by (bit_vector);
        b >> 4
    }

    /// The variant.
    pub fn get_variant(&self) -> (v: Variant)
        ensures
            v == variant_of(self@),
    {
        let b: u8 = self.bytes[8];
        assert(b & 0x80 == 0 <==> b < 0x80) by (bit_vector);
        assert(b & 0xc0 == 0x80 <==> 0x80 <= b < 0xc0) by (bit_vector);
        assert(b & 0xe0 == 0xc0 <==> 0xc0 <= b < 0xe0) by (bit_vector);
        if b & 0x80 == 0 {
            Variant::NCS
        } else if b & 0xc0 == 0x80 {
            Variant::RFC4122
        } else if b & 0xe0 == 0xc0 {
            Variant::Microsoft
        } else {
            Variant::Future
        }
    }

    /// The node, present exactly for version 1 and version 6 under the RFC
    /// variant: the last six bytes.
    pub fn get_node(&self) -> (node: Option<[u8; 6]>)
        ensures
            node is Some <==> node_of(self@) is Some,
            node matches Some(n) ==> Some(n@) == node_of(self@),
    {
        let version = self.get_version();
        match self.get_variant() {
            Variant::RFC4122 => {
                if version == 1 || version == 6 {
                    let b = &self.bytes;
                    let n: [u8; 6] = [b[10], b[11], b[12], b[13], b[14], b[15]];
                    assert(n@ =~= self@.subrange(10, 16));
                    Some(n)
                } else {
                    None
                }
            },
            _ => None,
        }
    }
}

/// The version is read from byte 6 alone, so it is the same under every
/// variant and whatever the other bytes hold.
pub proof fn lemma_version_reads_byte_six(a: Seq<u8>, b: Seq<u8>)
    requires
        a.len() == 16,
        b.len() == 16,
        a[6] == b[6],
    ensures
        version_of(a) == version_of(b),
        0 <= version_of(a) <= 15,
{
}

} // verus!
