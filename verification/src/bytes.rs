//! Integers as bytes, in either byte order.
use vstd::prelude::*;

verus! {

/// The order in which the bytes of an integer lie in memory.
#[derive(Clone, Copy, Debug, PartialEq, Eq, Structural)]
pub enum ByteOrder {
    /// Least significant byte first.
    LittleEndian,
    /// Most significant byte first. This is also the order of the network.
    BigEndian,
}

/// The two bytes of `x` in the given order.
pub open spec fn u16_bytes(x: u16, order: ByteOrder) -> Seq<u8> {
    let lo = (x % 256) as u8;
    let hi = (x / 256) as u8;
    match order {
        ByteOrder::LittleEndian => seq![lo, hi],
        ByteOrder::BigEndian => seq![hi, lo],
    }
}

/// The integer whose bytes in the given order are `b[0]` and `b[1]`.
pub open spec fn u16_of_bytes(b: Seq<u8>, order: ByteOrder) -> u16
    recommends
        b.len() == 2,
{
    match order {
        ByteOrder::LittleEndian => (b[0] + 256 * b[1]) as u16,
        ByteOrder::BigEndian => (b[1] + 256 * b[0]) as u16,
    }
}

/// The four bytes of `x` in the given order.
pub open spec fn u32_bytes(x: u32, order: ByteOrder) -> Seq<u8> {
    let b0 = (x % 256) as u8;
    let b1 = (x / 0x100 % 256) as u8;
    let b2 = (x / 0x1_0000 % 256) as u8;
    let b3 = (x / 0x100_0000) as u8;
    match order {
        ByteOrder::LittleEndian => seq![b0, b1, b2, b3],
        ByteOrder::BigEndian => seq![b3, b2, b1, b0],
    }
}

/// The integer whose bytes in the given order are `b[0]` to `b[3]`.
pub open spec fn u32_of_bytes(b: Seq<u8>, order: ByteOrder) -> u32
    recommends
        b.len() == 4,
{
    match order {
        ByteOrder::LittleEndian => (b[0] + 0x100 * b[1] + 0x1_0000 * b[2] + 0x100_0000 * b[3]) as u32,
        ByteOrder::BigEndian => (b[3] + 0x100 * b[2] + 0x1_0000 * b[1] + 0x100_0000 * b[0]) as u32,
    }
}

/// Reading back the bytes of a 16-bit integer, in the order in which they were
/// written, gives the integer.
pub proof fn lemma_u16_round_trip(x: u16, order: ByteOrder)
    ensures
        u16_bytes(x, order).len() == 2,
        u16_of_bytes(u16_bytes(x, order), order) == x,
{
}

/// Reading back the bytes of a 32-bit integer, in the order in which they were
/// written, gives the integer.
pub proof fn lemma_u32_round_trip(x: u32, order: ByteOrder)
    ensures
        u32_bytes(x, order).len() == 4,
        u32_of_bytes(u32_bytes(x, order), order) == x,
{
}

/// [`u16::to_ne_bytes`]: the two bytes of `x` as the running machine keeps
/// them in memory. Which of the two orders that is depends on the machine, so
/// the contract names both.
#[verifier::external_body]
fn u16_to_ne_bytes(x: u16) -> (b: [u8; 2])
    ensures
        b@ == u16_bytes(x, ByteOrder::LittleEndian) || b@ == u16_bytes(x, ByteOrder::BigEndian),
{
    x.to_ne_bytes()
}

/// The byte order in which the number one has the bytes `one`, if there is
/// such an order.
pub open spec fn order_of_one(one: Seq<u8>) -> Option<ByteOrder> {
    if one == u16_bytes(1, ByteOrder::LittleEndian) {
        Some(ByteOrder::LittleEndian)
    } else if one == u16_bytes(1, ByteOrder::BigEndian) {
        Some(ByteOrder::BigEndian)
    } else {
        None
    }
}

impl ByteOrder {
    /// The byte order of a machine that keeps the 16-bit number one as the
    /// bytes `one`: little-endian for 1 and 0, big-endian for 0 and 1, none
    /// for any other two bytes.
    pub fn detect(one: [u8; 2]) -> (order: Option<ByteOrder>)
        ensures
            order == order_of_one(one@),
            order matches Some(o) ==> one@ == u16_bytes(1, o),
    {
        if one[0] == 1 && one[1] == 0 {
            assert(one@ =~= u16_bytes(1, ByteOrder::LittleEndian));
            Some(ByteOrder::LittleEndian)
        } else if one[0] == 0 && one[1] == 1 {
            assert(one@ =~= u16_bytes(1, ByteOrder::BigEndian));
            Some(ByteOrder::BigEndian)
        } else {
            None
        }
    }

    /// The byte order of the running machine, found by looking at how it
    /// keeps the number one.
    ///
    /// Which order comes back is a fact of the machine, so the contract is
    /// silent on it; every function that takes a byte order is proved for
    /// both.
    pub fn native() -> ByteOrder {
        match ByteOrder::detect(u16_to_ne_bytes(1)) {
            Some(order) => order,
            None => unreached(),
        }
    }

    /// The two bytes of `x` in this order.
    pub fn u16_to_bytes(self, x: u16) -> (b: [u8; 2])
        ensures
            b@ == u16_bytes(x, self),
    {
        let lo: u8 = (x % 256) as u8;
        let hi: u8 = (x / 256) as u8;
        match self {
            ByteOrder::LittleEndian => [lo, hi],
            ByteOrder::BigEndian => [hi, lo],
        }
    }

    /// The integer whose bytes in this order are `b0` and `b1`.
    pub fn u16_from_bytes(self, b0: u8, b1: u8) -> (x: u16)
        ensures
            x == u16_of_bytes(seq![b0, b1], self),
    {
        match self {
            ByteOrder::LittleEndian => b0 as u16 + 256 * (b1 as u16),
            ByteOrder::BigEndian => b1 as u16 + 256 * (b0 as u16),
        }
    }

    /// The four bytes of `x` in this order.
    pub fn u32_to_bytes(self, x: u32) -> (b: [u8; 4])
        ensures
            b@ == u32_bytes(x, self),
    {
        let b0: u8 = (x % 256) as u8;
        let b1: u8 = (x / 0x100 % 256) as u8;
        let b2: u8 = (x / 0x1_0000 % 256) as u8;
        let b3: u8 = (x / 0x100_0000) as u8;
        match self {
            ByteOrder::LittleEndian => [b0, b1, b2, b3],
            ByteOrder::BigEndian => [b3, b2, b1, b0],
        }
    }

    /// The integer whose bytes in this order are `b0` to `b3`.
    pub fn u32_from_bytes(self, b0: u8, b1: u8, b2: u8, b3: u8) -> (x: u32)
        ensures
            x == u32_of_bytes(seq![b0, b1, b2, b3], self),
    {
        match self {
            ByteOrder::LittleEndian => b0 as u32 + 0x100 * (b1 as u32) + 0x1_0000 * (b2 as u32)
                + 0x100_0000 * (b3 as u32),
            ByteOrder::BigEndian => b3 as u32 + 0x100 * (b2 as u32) + 0x1_0000 * (b1 as u32)
                + 0x100_0000 * (b0 as u32),
        }
    }
}

} // verus!
