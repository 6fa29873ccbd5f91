use crate::timestamp::{timestamp_of, unix_millis_of, unix_time_of_millis};
use crate::value::{node_of, variant_of, version_of, UuidValue, Variant};
use vstd::prelude::*;

verus! {

/// The layout of version 4 over sixteen random bytes: the version nibble is
/// set to `0100` and the variant bits to `10`; every other bit is kept.
pub open spec fn v4_layout(random: Seq<u8>) -> Seq<u8>
    recommends
        random.len() == 16,
{
    random.update(6, (0x40 + random[6] % 16) as u8).update(8, (0x80 + random[8] % 64) as u8)
}

/// Byte `i` of the six bytes that hold a count of milliseconds, big-endian.
pub open spec fn millis_byte(millis: int, i: int) -> u8
    recommends
        0 <= i < 6,
{
    if i == 0 {
        (millis / 0x100_0000_0000 % 256) as u8
    } else if i == 1 {
        (millis / 0x1_0000_0000 % 256) as u8
    } else if i == 2 {
        (millis / 0x100_0000 % 256) as u8
    } else if i == 3 {
        (millis / 0x1_0000 % 256) as u8
    } else if i == 4 {
        (millis / 0x100 % 256) as u8
    } else {
        (millis % 256) as u8
    }
}

/// The layout of version 7: the low 48 bits of the milliseconds, big-endian,
/// then ten random bytes, of which the first gives its high nibble to the
/// version `0111` and the third its two high bits to the variant `10`.
pub open spec fn v7_layout(millis: int, random: Seq<u8>) -> Seq<u8>
    recommends
        random.len() == 10,
{
    Seq::new(
        16,
        |i: int|
            if i < 6 {
                millis_byte(millis, i)
            } else if i == 6 {
                (0x70 + random[0] % 16) as u8
            } else if i == 8 {
                (0x80 + random[2] % 64) as u8
            } else {
                random[i - 6]
            },
    )
}

/// Whether `a` comes before `b` in the order of their bytes: they agree up to
/// some place, and there `a` has the smaller byte.
pub open spec fn bytes_before(a: Seq<u8>, b: Seq<u8>) -> bool {
    exists|k: int|
        0 <= k < a.len() && k < b.len() && a.subrange(0, k) == b.subrange(0, k) && #[trigger] a[k]
            < b[k]
}

/// `uuid::Uuid::new_v4`, as sixteen bytes from the operating system's random
/// source. Nothing is claimed of them.
#[verifier::external_body]
fn random_v4_bytes() -> [u8; 16] {
    uuid::Uuid::new_v4().into_bytes()
}

/// `uuid::Uuid::now_v7`, as sixteen bytes made from the system clock and the
/// random source. Nothing is claimed of them.
#[verifier::external_body]
fn clock_v7_bytes() -> [u8; 16] {
    uuid::Uuid::now_v7().into_bytes()
}

impl UuidValue {
    /// A version 4 UUID over the given random bytes.
    pub fn new_v4(random: [u8; 16]) -> (u: UuidValue)
        ensures
            u@ == v4_layout(random@),
            version_of(u@) == 4,
            variant_of(u@) == Variant::RFC4122,
    {
        let r = &random;
        let bytes: [u8; 16] = [
            r[0],
            r[1],
            r[2],
            r[3],
            r[4],
            r[5],
            0x40 + r[6] % 16,
            r[7],
            0x80 + r[8] % 64,
            r[9],
            r[10],
            r[11],
            r[12],
            r[13],
            r[14],
            r[15],
        ];
        assert(bytes@ =~= v4_layout(random@));
        UuidValue::from_bytes(bytes)
    }

    /// A version 7 UUID for a time in milliseconds from the Unix epoch, of
    /// which the low 48 bits are kept, over the given random bytes.
    pub fn new_v7(unix_millis: u64, random: [u8; 10]) -> (u: UuidValue)
        ensures
            u@ == v7_layout(unix_millis as int, random@),
            version_of(u@) == 7,
            variant_of(u@) == Variant::RFC4122,
            unix_millis_of(u@) == unix_millis % 0x1_0000_0000_0000,
    {
        let m = unix_millis;
        let r = &random;
        let bytes: [u8; 16] = [
            (m / 0x100_0000_0000 % 256) as u8,
            (m / 0x1_0000_0000 % 256) as u8,
            (m / 0x100_0000 % 256) as u8,
            (m / 0x1_0000 % 256) as u8,
            (m / 0x100 % 256) as u8,
            (m % 256) as u8,
            0x70 + r[0] % 16,
            r[1],
            0x80 + r[2] % 64,
            r[3],
            r[4],
            r[5],
            r[6],
            r[7],
            r[8],
            r[9],
        ];
        proof {
            lemma_millis_bytes(m);
        }
        assert(bytes@ =~= v7_layout(unix_millis as int, random@));
        UuidValue::from_bytes(bytes)
    }
}

/// A fresh version 4 UUID from the operating system's random source.
pub fn generate_v4() -> (u: UuidValue)
    ensures
        version_of(u@) == 4,
        variant_of(u@) == Variant::RFC4122,
{
    UuidValue::new_v4(random_v4_bytes())
}

/// A fresh version 7 UUID for the current time.
pub fn generate_v7() -> (u: UuidValue)
    ensures
        version_of(u@) == 7,
        variant_of(u@) == Variant::RFC4122,
        timestamp_of(u@) == Some(unix_time_of_millis(unix_millis_of(u@))),
{
    let raw = clock_v7_bytes();
    let millis: u64 = (raw[0] as u64) * 0x100_0000_0000 + (raw[1] as u64) * 0x1_0000_0000 + (
    raw[2] as u64) * 0x100_0000 + (raw[3] as u64) * 0x1_0000 + (raw[4] as u64) * 0x100 + (
    raw[5] as u64);
    let tail: [u8; 10] = [
        raw[6],
        raw[7],
        raw[8],
        raw[9],
        raw[10],
        raw[11],
        raw[12],
        raw[13],
        raw[14],
        raw[15],
    ];
    UuidValue::new_v7(millis, tail)
}

/// The six big-endian bytes of a count of milliseconds spell its low 48 bits.
proof fn lemma_millis_bytes(m: u64)
    ensures
        millis_byte(m as int, 0) * 0x100_0000_0000 + millis_byte(m as int, 1) * 0x1_0000_0000
            + millis_byte(m as int, 2) * 0x100_0000 + millis_byte(m as int, 3) * 0x1_0000
            + millis_byte(m as int, 4) * 0x100 + millis_byte(m as int, 5) == m
            % 0x1_0000_0000_0000,
{
    assert((m / 0x100_0000_0000 % 256) * 0x100_0000_0000 + (m / 0x1_0000_0000 % 256)
        * 0x1_0000_0000 + (m / 0x100_0000 % 256) * 0x100_0000 + (m / 0x1_0000 % 256) * 0x1_0000 + (m
        / 0x100 % 256) * 0x100 + m % 256 == m % 0x1_0000_0000_0000) by (bit_vector);
}

/// A version 7 layout embeds the time it was made for.
pub proof fn lemma_v7_embeds_time(millis: int, random: Seq<u8>)
    requires
        0 <= millis < 0x1_0000_0000_0000,
        random.len() == 10,
    ensures
        unix_millis_of(v7_layout(millis, random)) == millis,
        timestamp_of(v7_layout(millis, random)) == Some(unix_time_of_millis(millis)),
{
    lemma_millis_bytes(millis as u64);
}

/// Neither generated layout carries a node, and version 4 carries no
/// timestamp.
pub proof fn lemma_generated_carry_no_node(random: Seq<u8>, millis: int, tail: Seq<u8>)
    requires
        random.len() == 16,
        tail.len() == 10,
    ensures
        node_of(v4_layout(random)) is None,
        timestamp_of(v4_layout(random)) is None,
        node_of(v7_layout(millis, tail)) is None,
{
}

/// Version 7 layouts sort by time: of two made for different milliseconds,
/// the earlier comes first in byte order, whatever the random bytes; and the
/// embedded seconds and nanoseconds never fall as the time rises.
pub proof fn lemma_v7_orders_by_time(
    earlier: int,
    random_a: Seq<u8>,
    later: int,
    random_b: Seq<u8>,
)
    requires
        0 <= earlier <= later < 0x1_0000_0000_0000,
        random_a.len() == 10,
        random_b.len() == 10,
    ensures
        earlier < later ==> bytes_before(
            v7_layout(earlier, random_a),
            v7_layout(later, random_b),
        ),
        unix_time_of_millis(earlier).0 <= unix_time_of_millis(later).0,
        unix_time_of_millis(earlier).0 == unix_time_of_millis(later).0 ==> unix_time_of_millis(
            earlier,
        ).1 <= unix_time_of_millis(later).1,
{
    let a = v7_layout(earlier, random_a);
    let b = v7_layout(later, random_b);
    lemma_v7_embeds_time(earlier, random_a);
    lemma_v7_embeds_time(later, random_b);
    if earlier < later {
        let k = if a[0] != b[0] {
            0int
        } else if a[1] != b[1] {
            1int
        } else if a[2] != b[2] {
            2int
        } else if a[3] != b[3] {
            3int
        } else if a[4] != b[4] {
            4int
        } else {
            5int
        };
        assert(a.subrange(0, k) =~= b.subrange(0, k));
        assert(a[k] < b[k]);
    }
}

} // verus!
