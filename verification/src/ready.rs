//! Readiness of an I/O resource, the direction a caller waits in, and the
//! interest it registers with the poller.
use vstd::prelude::*;

verus! {

pub const READABLE: u8 = 0b0_01;

pub const WRITABLE: u8 = 0b0_10;

pub const READ_CLOSED: u8 = 0b0_0100;

pub const WRITE_CLOSED: u8 = 0b0_1000;

pub const READ_CANCELED: u8 = 0b01_0000;

pub const WRITE_CANCELED: u8 = 0b10_0000;

/// Bits of every read-side readiness: readable, read closed, read canceled.
pub const READ_ALL: u8 = 0b01_0101;

/// Bits of every write-side readiness: writable, write closed, write canceled.
pub const WRITE_ALL: u8 = 0b10_1010;

/// Bits of both cancellations.
pub const CANCELED: u8 = 0b11_0000;

/// The bits of a readiness built from four event flags.
pub open spec fn flag_bits(readable: bool, writable: bool, read_closed: bool, write_closed: bool) -> u8 {
    (if readable { READABLE } else { 0u8 }) | (if writable { WRITABLE } else { 0u8 }) | (if read_closed {
        READ_CLOSED
    } else {
        0u8
    }) | (if write_closed { WRITE_CLOSED } else { 0u8 })
}

/// Describes the readiness state of an I/O resource: which operations it is
/// ready to perform, as a set of bits.
#[derive(Clone, Copy, PartialEq, Eq, Structural, PartialOrd, Debug)]
pub struct Ready(pub u8);

impl Ready {
    /// The set holds every bit of `other`.
    pub open spec fn contains_spec(self, other: Ready) -> bool {
        self.0 & other.0 == other.0
    }

    /// The set shares a bit with `mask`.
    pub open spec fn meets(self, mask: u8) -> bool {
        self.0 & mask != 0
    }

    /// Returns the empty `Ready` set.
    pub fn empty() -> (r: Ready)
        ensures
            r.0 == 0,
    {
        Ready(0)
    }

    /// Returns a `Ready` representing readable readiness.
    pub fn readable() -> (r: Ready)
        ensures
            r.0 == READABLE,
    {
        Ready(READABLE)
    }

    /// Returns a `Ready` representing writable readiness.
    pub fn writable() -> (r: Ready)
        ensures
            r.0 == WRITABLE,
    {
        Ready(WRITABLE)
    }

    /// Returns a `Ready` representing read closed readiness.
    pub fn read_closed() -> (r: Ready)
        ensures
            r.0 == READ_CLOSED,
    {
        Ready(READ_CLOSED)
    }

    /// Returns a `Ready` representing write closed readiness.
    pub fn write_closed() -> (r: Ready)
        ensures
            r.0 == WRITE_CLOSED,
    {
        Ready(WRITE_CLOSED)
    }

    /// Returns a `Ready` representing read canceled readiness.
    pub fn read_canceled() -> (r: Ready)
        ensures
            r.0 == READ_CANCELED,
    {
        Ready(READ_CANCELED)
    }

    /// Returns a `Ready` representing write canceled readiness.
    pub fn write_canceled() -> (r: Ready)
        ensures
            r.0 == WRITE_CANCELED,
    {
        Ready(WRITE_CANCELED)
    }

    /// Returns a `Ready` representing read or write canceled readiness.
    pub fn canceled() -> (r: Ready)
        ensures
            r.0 == CANCELED,
    {
        Ready(CANCELED)
    }

    /// Every read-side readiness.
    pub fn read_all() -> (r: Ready)
        ensures
            r.0 == READ_ALL,
    {
        Ready(READ_ALL)
    }

    /// Every write-side readiness.
    pub fn write_all() -> (r: Ready)
        ensures
            r.0 == WRITE_ALL,
    {
        Ready(WRITE_ALL)
    }

    /// The readiness that four event flags describe: readable, writable,
    /// read closed and write closed each contribute their own bit.
    pub fn from_flags(readable: bool, writable: bool, read_closed: bool, write_closed: bool) -> (r:
        Ready)
        ensures
            r.0 == flag_bits(readable, writable, read_closed, write_closed),
    {
        let mut ready = Ready::empty();
        if readable {
            ready = ready | Ready::readable();
        }
        if writable {
            ready = ready | Ready::writable();
        }
        if read_closed {
            ready = ready | Ready::read_closed();
        }
        if write_closed {
            ready = ready | Ready::write_closed();
        }
        proof {
            lemma_flag_bits_steps(readable, writable, read_closed, write_closed);
        }
        ready
    }

    /// The readiness an IOCP event reports: each of its readable, writable,
    /// read-closed and write-closed tests contributes its own bit.
    pub fn from_mio(event: &crate::iocp::Event) -> (r: Ready)
        ensures
            r.0 == flag_bits(
                event.flags & crate::iocp::READABLE_FLAGS != 0,
                event.flags & crate::iocp::WRITABLE_FLAGS != 0,
                event.flags & crate::iocp::READ_CLOSED_FLAGS != 0,
                event.flags & crate::iocp::WRITE_CLOSED_FLAGS != 0,
            ),
    {
        Ready::from_flags(
            event.is_readable(),
            event.is_writable(),
            event.is_read_closed(),
            event.is_write_closed(),
        )
    }

    /// Returns true if `Ready` is the empty set.
    pub fn is_empty(self) -> (b: bool)
        ensures
            b == (self.0 == 0),
    {
        self == Ready::empty()
    }

    /// Returns `true` if the value includes readable, read closed or read
    /// canceled readiness.
    pub fn is_readable(self) -> (b: bool)
        ensures
            b == self.meets(READ_ALL),
    {
        !(self & Ready::read_all()).is_empty()
    }

    /// Returns `true` if the value includes writable, write closed or write
    /// canceled readiness.
    pub fn is_writable(self) -> (b: bool)
        ensures
            b == self.meets(WRITE_ALL),
    {
        !(self & Ready::write_all()).is_empty()
    }

    /// Returns `true` if the value includes read-closed readiness.
    pub fn is_read_closed(self) -> (b: bool)
        ensures
            b == self.meets(READ_CLOSED),
    {
        let r = self.contains(Ready::read_closed());
        proof {
            lemma_single_bit_contains(self.0, READ_CLOSED);
        }
        r
    }

    /// Returns `true` if the value includes write-closed readiness.
    pub fn is_write_closed(self) -> (b: bool)
        ensures
            b == self.meets(WRITE_CLOSED),
    {
        let r = self.contains(Ready::write_closed());
        proof {
            lemma_single_bit_contains(self.0, WRITE_CLOSED);
        }
        r
    }

    /// Returns `true` if the value includes a read or write cancellation.
    pub fn is_canceled(self) -> (b: bool)
        ensures
            b == self.meets(CANCELED),
    {
        !(self & Ready::canceled()).is_empty()
    }

    /// Returns true if `self` is a superset of `other`: every readiness of
    /// `other` is in `self`.
    pub fn contains(self, other: Ready) -> (b: bool)
        ensures
            b == self.contains_spec(other),
    {
        (self & other) == other
    }
}

proof fn lemma_single_bit_contains(x: u8, bit: u8)
    requires
        bit == READ_CLOSED || bit == WRITE_CLOSED,
    ensures
        (x & bit == bit) == (x & bit != 0),
{
    assert((x & 4u8 == 4u8) == (x & 4u8 != 0u8)) by (bit_vector);
    assert((x & 8u8 == 8u8) == (x & 8u8 != 0u8)) by (bit_vector);
}

proof fn lemma_flag_bits_steps(readable: bool, writable: bool, read_closed: bool, write_closed: bool)
    ensures
        ({
            let a: u8 = if readable { 0u8 | READABLE } else { 0u8 };
            let b: u8 = if writable { a | WRITABLE } else { a };
            let c: u8 = if read_closed { b | READ_CLOSED } else { b };
            let d: u8 = if write_closed { c | WRITE_CLOSED } else { c };
            d == flag_bits(readable, writable, read_closed, write_closed)
        }),
{
    assert(0u8 | 1u8 == 1u8) by (bit_vector);
    assert(forall|x: u8| #![trigger x | 0u8] x | 0u8 == x) by (bit_vector);
    assert(forall|x: u8| #![trigger 0u8 | x] 0u8 | x == x) by (bit_vector);
}

impl core::ops::BitOr for Ready {
    type Output = Ready;

    fn bitor(self, other: Ready) -> (r: Ready) {
        Ready(self.0 | other.0)
    }
}

impl vstd::std_specs::ops::BitOrSpecImpl for Ready {
    open spec fn obeys_bitor_spec() -> bool {
        true
    }

    open spec fn bitor_req(self, rhs: Ready) -> bool {
        true
    }

    open spec fn bitor_spec(self, rhs: Ready) -> Ready {
        Ready(self.0 | rhs.0)
    }
}

impl core::ops::BitOrAssign for Ready {
    fn bitor_assign(&mut self, other: Ready)
        ensures
            final(self).0 == old(self).0 | other.0,
    {
        self.0 = self.0 | other.0;
    }
}

impl core::ops::BitAnd for Ready {
    type Output = Ready;

    fn bitand(self, other: Ready) -> (r: Ready) {
        Ready(self.0 & other.0)
    }
}

impl vstd::std_specs::ops::BitAndSpecImpl for Ready {
    open spec fn obeys_bitand_spec() -> bool {
        true
    }

    open spec fn bitand_req(self, rhs: Ready) -> bool {
        true
    }

    open spec fn bitand_spec(self, rhs: Ready) -> Ready {
        Ready(self.0 & rhs.0)
    }
}

impl core::ops::Sub for Ready {
    type Output = Ready;

    fn sub(self, other: Ready) -> (r: Ready) {
        Ready(self.0 & !other.0)
    }
}

impl vstd::std_specs::ops::SubSpecImpl for Ready {
    open spec fn obeys_sub_spec() -> bool {
        true
    }

    open spec fn sub_req(self, rhs: Ready) -> bool {
        true
    }

    open spec fn sub_spec(self, rhs: Ready) -> Ready {
        Ready(self.0 & !rhs.0)
    }
}

/// The direction an operation waits in.
#[derive(Debug, Eq, PartialEq, Structural, Clone, Copy, Hash)]
pub enum Direction {
    Read,
    Write,
}

impl Direction {
    /// The bits of the readiness that wakes a waiter in this direction.
    pub open spec fn mask_bits(self) -> u8 {
        match self {
            Direction::Read => READ_ALL,
            Direction::Write => WRITE_ALL,
        }
    }

    /// The readiness that concerns this direction: readable, read closed and
    /// read canceled for `Read`; their write counterparts for `Write`.
    pub fn mask(self) -> (r: Ready)
        ensures
            r.0 == self.mask_bits(),
    {
        proof {
            assert(1u8 | 4u8 | 16u8 == 21u8) by (bit_vector);
            assert(2u8 | 8u8 | 32u8 == 42u8) by (bit_vector);
        }
        match self {
            Direction::Read => Ready::readable() | Ready::read_closed() | Ready::read_canceled(),
            Direction::Write => Ready::writable() | Ready::write_closed() | Ready::write_canceled(),
        }
    }
}

pub const INTEREST_READABLE: u8 = 0b0001;

pub const INTEREST_WRITABLE: u8 = 0b0010;

pub const INTEREST_AIO: u8 = 0b0100;

pub const INTEREST_LIO: u8 = 0b1000;

pub const INTEREST_PRIORITY: u8 = 0b10000;

/// Readiness event interest: the readiness events a caller is interested in
/// when it registers an I/O resource. Never empty.
#[derive(Clone, Copy, Eq, PartialEq, Structural, Debug)]
pub struct Interest {
    bits: u8,
}

impl Interest {
    #[verifier::type_invariant]
    spec fn nonempty(self) -> bool {
        self.bits != 0
    }

    /// The set of interests, as bits.
    pub closed spec fn view_bits(self) -> u8 {
        self.bits
    }

    /// Interest in readable readiness.
    pub fn readable() -> (i: Interest)
        ensures
            i.view_bits() == INTEREST_READABLE,
    {
        Interest { bits: INTEREST_READABLE }
    }

    /// Interest in writable readiness.
    pub fn writable() -> (i: Interest)
        ensures
            i.view_bits() == INTEREST_WRITABLE,
    {
        Interest { bits: INTEREST_WRITABLE }
    }

    /// Interest in AIO completion.
    pub fn aio() -> (i: Interest)
        ensures
            i.view_bits() == INTEREST_AIO,
    {
        Interest { bits: INTEREST_AIO }
    }

    /// Interest in LIO completion.
    pub fn lio() -> (i: Interest)
        ensures
            i.view_bits() == INTEREST_LIO,
    {
        Interest { bits: INTEREST_LIO }
    }

    /// Interest in priority readiness.
    pub fn priority() -> (i: Interest)
        ensures
            i.view_bits() == INTEREST_PRIORITY,
    {
        Interest { bits: INTEREST_PRIORITY }
    }

    /// The interests as bits, in the layout the poller uses.
    pub fn bits(&self) -> (b: u8)
        ensures
            b == self.view_bits(),
            b != 0,
    {
        proof {
            use_type_invariant(self);
        }
        self.bits
    }

    /// The union of two interest sets.
    pub closed spec fn union_spec(self, other: Interest) -> Interest {
        Interest { bits: self.bits | other.bits }
    }

    /// The union of two interest sets holds the bits of both.
    pub proof fn lemma_union_bits(self, other: Interest)
        ensures
            self.union_spec(other).view_bits() == self.view_bits() | other.view_bits(),
    {
    }

    /// Add together two `Interest` values.
    pub fn add(self, other: Interest) -> (i: Interest)
        ensures
            i.view_bits() == self.view_bits() | other.view_bits(),
            i == self.union_spec(other),
    {
        proof {
            use_type_invariant(&self);
            let (x, y) = (self.bits, other.bits);
            assert(x != 0 ==> x | y != 0) by (bit_vector);
        }
        Interest { bits: self.bits | other.bits }
    }

    /// Returns true if the value includes readable interest.
    pub fn is_readable(self) -> (b: bool)
        ensures
            b == (self.view_bits() & INTEREST_READABLE != 0),
    {
        (self.bits & INTEREST_READABLE) != 0
    }

    /// Returns true if the value includes writable interest.
    pub fn is_writable(self) -> (b: bool)
        ensures
            b == (self.view_bits() & INTEREST_WRITABLE != 0),
    {
        (self.bits & INTEREST_WRITABLE) != 0
    }
}

impl core::ops::BitOr for Interest {
    type Output = Self;

    fn bitor(self, other: Self) -> (r: Self) {
        self.add(other)
    }
}

impl vstd::std_specs::ops::BitOrSpecImpl for Interest {
    open spec fn obeys_bitor_spec() -> bool {
        true
    }

    open spec fn bitor_req(self, rhs: Interest) -> bool {
        true
    }

    open spec fn bitor_spec(self, rhs: Interest) -> Interest {
        self.union_spec(rhs)
    }
}

impl core::ops::BitOrAssign for Interest {
    fn bitor_assign(&mut self, other: Self)
        ensures
            final(self).view_bits() == old(self).view_bits() | other.view_bits(),
    {
        *self = (*self).add(other);
    }
}

/// Union is a superset of both of its operands.
pub proof fn lemma_union_contains(a: Ready, b: Ready)
    ensures
        Ready(a.0 | b.0).contains_spec(a),
        Ready(a.0 | b.0).contains_spec(b),
{
    let (x, y) = (a.0, b.0);
    assert((x | y) & x == x && (x | y) & y == y) by (bit_vector);
}

/// Removing `b` from `a` leaves nothing of `b`, and what was removed together
/// with what is left gives `a` back.
pub proof fn lemma_sub_parts(a: Ready, b: Ready)
    ensures
        (a.0 & !b.0) & b.0 == 0,
        (a.0 & !b.0) | (a.0 & b.0) == a.0,
{
    let (x, y) = (a.0, b.0);
    assert((x & !y) & y == 0 && (x & !y) | (x & y) == x) by (bit_vector);
}

/// The two directions split the six readiness bits between them: no bit
/// concerns both, and together they cover every bit.
pub proof fn lemma_directions_partition()
    ensures
        Direction::Read.mask_bits() & Direction::Write.mask_bits() == 0,
        Direction::Read.mask_bits() | Direction::Write.mask_bits() == 0b11_1111u8,
        READ_ALL | WRITE_ALL == READABLE | WRITABLE | READ_CLOSED | WRITE_CLOSED | READ_CANCELED
            | WRITE_CANCELED,
{
    assert(21u8 & 42u8 == 0u8) by (bit_vector);
    assert(21u8 | 42u8 == 63u8) by (bit_vector);
    assert(1u8 | 2u8 | 4u8 | 8u8 | 16u8 | 32u8 == 63u8) by (bit_vector);
}

/// A readiness built from event flags never holds a cancellation.
pub proof fn lemma_flags_never_canceled(
    readable: bool,
    writable: bool,
    read_closed: bool,
    write_closed: bool,
)
    ensures
        flag_bits(readable, writable, read_closed, write_closed) & CANCELED == 0,
{
    let ra: u8 = if readable { 1u8 } else { 0u8 };
    let wa: u8 = if writable { 2u8 } else { 0u8 };
    let rc: u8 = if read_closed { 4u8 } else { 0u8 };
    let wc: u8 = if write_closed { 8u8 } else { 0u8 };
    assert(ra & 48u8 == 0 && wa & 48u8 == 0 && rc & 48u8 == 0 && wc & 48u8 == 0) by (bit_vector)
        requires
            ra == 1 || ra == 0,
            wa == 2 || wa == 0,
            rc == 4 || rc == 0,
            wc == 8 || wc == 0,
    ;
    assert((ra | wa | rc | wc) & 48u8 == 0) by (bit_vector)
        requires
            ra & 48u8 == 0 && wa & 48u8 == 0 && rc & 48u8 == 0 && wc & 48u8 == 0,
    ;
}

} // verus!
