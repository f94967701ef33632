//! Verified core of a façade over a kernel-mode tunneling driver: the
//! lifecycle of a virtual network adapter, the packet-exchange session on its
//! ring buffer, and the identity utilities that correlate GUID byte layouts.
//!
//! The driver and the OS network tables are external collaborators reached
//! over a foreign function boundary, which this crate does not cross. Every
//! rule of the façade lives here instead, verified: input validation (names,
//! ring capacities, packet sizes, mask prefixes), the byte-layout transforms
//! of 128-bit identifiers, the device-name GUID parser, the exact
//! classification of driver failures by OS error code, the construction of
//! unicast-address records, and the exactly-once release discipline of every
//! handle. A thin unverified shell makes the foreign calls and hands each
//! call's raw results (a possibly-null handle as an integer, the fetched OS
//! error code) to the decision functions here.

pub mod adapter;
pub mod packet;
pub mod session;
pub mod utility;

pub use adapter::{
    build_unicast_row, find_adapter_index, set_ip_address_outcome, Adapter, CreateRequest,
    InterfaceInfo, UnicastIpAddressRow,
};
pub use packet::{RecvPacket, SendPacket};
pub use session::Session;
pub use utility::{
    encode_utf16, guid_be_to_ne, guid_from_u128, guid_to_u128, interface_embedded_guid,
    luid_to_guid_outcome, parse_guid, u128_from_bytes16, Guid, GuidParseError,
};

use vstd::prelude::*;

verus! {

use vstd::arithmetic::power::{lemma_pow_positive, pow};
use vstd::arithmetic::power2::{
    is_pow2, is_pow2_equiv, is_pow2_exists, lemma2_to64, lemma_pow2_strictly_increases, pow2,
};

/// Maximum adapter name length in UTF-16 units, including the zero terminator.
pub const MAX_ADAPTER_NAME: usize = 128;

/// Smallest ring capacity the driver accepts, in bytes.
pub const MIN_RING_CAPACITY: u32 = 0x20000;

/// Largest ring capacity the driver accepts, in bytes.
pub const MAX_RING_CAPACITY: u32 = 0x4000000;

/// Largest IP packet size a session can allocate, in bytes.
pub const MAX_IP_PACKET_SIZE: u32 = 0xFFFF;

#[derive(Debug, Clone, Copy, PartialEq, Eq, Structural)]
pub enum RingCapacityError {
    InvalidInput,
}

#[derive(Debug, Clone, Copy, PartialEq, Eq, Structural)]
pub enum IpPacketSizeError {
    InvalidInput,
}

#[derive(Debug, Clone, Copy, PartialEq, Eq, Structural)]
pub enum IpMaskPrefixError {
    InvalidInput,
}

/// The values the driver accepts as a ring capacity: powers of two within
/// `[MIN_RING_CAPACITY, MAX_RING_CAPACITY]`.
pub open spec fn ring_capacity_valid(value: u32) -> bool {
    &&& is_pow2(value as int)
    &&& MIN_RING_CAPACITY <= value <= MAX_RING_CAPACITY
}

/// A validated ring capacity; construction through `try_from` is the single
/// validation point.
#[derive(Debug, Clone, Copy, PartialEq, Eq, PartialOrd, Ord, Structural)]
pub struct RingCapacity(u32);

impl RingCapacity {
    /// The capacity in bytes.
    pub closed spec fn spec_cap(self) -> u32 {
        self.0
    }

    /// Every constructed value satisfies the driver's capacity constraint.
    pub open spec fn wf(self) -> bool {
        ring_capacity_valid(self.spec_cap())
    }

    pub fn max() -> (r: Self)
        ensures
            r.spec_cap() == MAX_RING_CAPACITY,
            r.wf(),
    {
        proof {
            lemma_ring_capacity_bounds_valid();
        }
        Self(MAX_RING_CAPACITY)
    }

    pub fn min() -> (r: Self)
        ensures
            r.spec_cap() == MIN_RING_CAPACITY,
            r.wf(),
    {
        proof {
            lemma_ring_capacity_bounds_valid();
        }
        Self(MIN_RING_CAPACITY)
    }

    pub fn cap(self) -> (r: u32)
        ensures
            r == self.spec_cap(),
    {
        self.0
    }
}

impl TryFrom<u32> for RingCapacity {
    type Error = RingCapacityError;

    fn try_from(value: u32) -> (r: Result<Self, RingCapacityError>) {
        proof {
            lemma_ring_capacity_check(value);
        }
        if MIN_RING_CAPACITY <= value && value <= MAX_RING_CAPACITY
            && (value & (value - 1)) == 0 {
            Ok(Self(value))
        } else {
            Err(RingCapacityError::InvalidInput)
        }
    }
}

impl vstd::std_specs::convert::TryFromSpecImpl<u32> for RingCapacity {
    open spec fn obeys_try_from_spec() -> bool {
        true
    }

    closed spec fn try_from_spec(value: u32) -> Result<Self, RingCapacityError> {
        if ring_capacity_valid(value) {
            Ok(RingCapacity(value))
        } else {
            Err(RingCapacityError::InvalidInput)
        }
    }
}

/// Both range endpoints are powers of two, so `min()` and `max()` are valid.
proof fn lemma_ring_capacity_bounds_valid()
    ensures
        ring_capacity_valid(MIN_RING_CAPACITY),
        ring_capacity_valid(MAX_RING_CAPACITY),
{
    lemma2_to64();
    lemma_pow_positive(2, 17);
    lemma_pow_positive(2, 26);
    assert(pow(2, 17) == pow2(17));
    assert(pow(2, 26) == pow2(26));
    assert(is_pow2_exists(MIN_RING_CAPACITY as int));
    assert(is_pow2_exists(MAX_RING_CAPACITY as int));
    is_pow2_equiv(MIN_RING_CAPACITY as int);
    is_pow2_equiv(MAX_RING_CAPACITY as int);
}

/// The executable check (bounds plus the `value & (value - 1)` trick) decides
/// exactly `ring_capacity_valid`.
proof fn lemma_ring_capacity_check(value: u32)
    ensures
        ring_capacity_valid(value) <==> (MIN_RING_CAPACITY <= value <= MAX_RING_CAPACITY
            && (value & (value - 1) as u32) == 0),
{
    lemma2_to64();
    if MIN_RING_CAPACITY <= value <= MAX_RING_CAPACITY && (value & (value - 1) as u32) == 0 {
        assert(value == 0x20000 || value == 0x40000 || value == 0x80000 || value == 0x100000
            || value == 0x200000 || value == 0x400000 || value == 0x800000 || value == 0x1000000
            || value == 0x2000000 || value == 0x4000000) by (bit_vector)
            requires
                0x20000 <= value <= 0x4000000 && (value & (value - 1) as u32) == 0,
        ;
        let k: nat = if value == 0x20000 {
            17
        } else if value == 0x40000 {
            18
        } else if value == 0x80000 {
            19
        } else if value == 0x100000 {
            20
        } else if value == 0x200000 {
            21
        } else if value == 0x400000 {
            22
        } else if value == 0x800000 {
            23
        } else if value == 0x1000000 {
            24
        } else if value == 0x2000000 {
            25
        } else {
            26
        };
        lemma_pow_positive(2, k);
        assert(pow(2, k) == pow2(k));
        assert(is_pow2_exists(value as int));
        is_pow2_equiv(value as int);
    }
    if ring_capacity_valid(value) {
        is_pow2_equiv(value as int);
        let i = choose|i: nat| pow(2, i) == value as int;
        lemma_pow_positive(2, i);
        assert(pow(2, i) == pow2(i));
        if i < 17 {
            lemma_pow2_strictly_increases(i, 17);
        }
        if i > 26 {
            lemma_pow2_strictly_increases(26, i);
        }
        assert(17 <= i <= 26);
        assert(value == 0x20000 || value == 0x40000 || value == 0x80000 || value == 0x100000
            || value == 0x200000 || value == 0x400000 || value == 0x800000 || value == 0x1000000
            || value == 0x2000000 || value == 0x4000000);
        assert((value & (value - 1) as u32) == 0) by (bit_vector)
            requires
                value == 0x20000 || value == 0x40000 || value == 0x80000 || value == 0x100000
                    || value == 0x200000 || value == 0x400000 || value == 0x800000
                    || value == 0x1000000 || value == 0x2000000 || value == 0x4000000,
        ;
    }
}

/// Status code of a successful OS call.
pub const NO_ERROR: u32 = 0;

/// OS error code reported when the driver's file is absent.
pub const ERROR_FILE_NOT_FOUND: u32 = 2;

/// OS error code for a malformed packet in the ring.
pub const ERROR_INVALID_DATA: u32 = 13;

/// OS error code reported while the adapter is terminating.
pub const ERROR_HANDLE_EOF: u32 = 38;

/// OS error code for a full ring on allocation.
pub const ERROR_BUFFER_OVERFLOW: u32 = 111;

/// OS error code for an empty ring on receive.
pub const ERROR_NO_MORE_ITEMS: u32 = 259;

/// An OS error code fetched through the "get last error" query after a failed
/// driver or OS call.
#[derive(Debug, Clone, Copy, PartialEq, Eq, Structural)]
pub struct Win32Error {
    pub code: u32,
}

impl Win32Error {
    pub fn new(code: u32) -> (r: Self)
        ensures
            r.code == code,
    {
        Win32Error { code }
    }

    pub fn code(self) -> (r: u32)
        ensures
            r == self.code,
    {
        self.code
    }
}

#[derive(Debug, Clone, Copy, PartialEq, Eq, Structural)]
pub enum GetRunningDriverVersionError {
    WintunNotLoaded,
    Other(Win32Error),
}

impl GetRunningDriverVersionError {
    pub fn is_not_loaded(self) -> (r: bool)
        ensures
            r == (self is WintunNotLoaded),
    {
        matches!(self, Self::WintunNotLoaded)
    }
}

#[derive(Debug, Clone, Copy, PartialEq, Eq, Structural)]
pub enum ReceivePacketError {
    AdapterIsTerminating,
    WouldBlock,
    InvalidData,
    Other(Win32Error),
}

impl ReceivePacketError {
    pub fn is_adapter_terminating(self) -> (r: bool)
        ensures
            r == (self is AdapterIsTerminating),
    {
        matches!(self, Self::AdapterIsTerminating)
    }

    pub fn is_would_block(self) -> (r: bool)
        ensures
            r == (self is WouldBlock),
    {
        matches!(self, Self::WouldBlock)
    }

    pub fn is_invalid_data(self) -> (r: bool)
        ensures
            r == (self is InvalidData),
    {
        matches!(self, Self::InvalidData)
    }
}

#[derive(Debug, Clone, Copy, PartialEq, Eq, Structural)]
pub enum AllocatePacketError {
    AdapterIsTerminating,
    WouldBlock,
    Other(Win32Error),
}

impl AllocatePacketError {
    pub fn is_adapter_terminating(self) -> (r: bool)
        ensures
            r == (self is AdapterIsTerminating),
    {
        matches!(self, Self::AdapterIsTerminating)
    }

    pub fn is_would_block(self) -> (r: bool)
        ensures
            r == (self is WouldBlock),
    {
        matches!(self, Self::WouldBlock)
    }
}

/// The umbrella error taxonomy: every narrower error of this library widens
/// losslessly into this one through `From`.
#[derive(Debug, Clone, Copy, PartialEq, Eq, Structural)]
pub enum WintunError {
    TooLongName { max: usize, got: usize },
    ContainsNull(usize),
    InvalidRingCapacity,
    InvalidPacketSize,
    InvalidIpMaskPrefix,
    WintunNotLoaded,
    AdapterIsTerminating,
    WouldBlock,
    InvalidData,
    InterfaceNotFound,
    Other(Win32Error),
}

pub type WintunResult<T> = Result<T, WintunError>;

impl From<GetRunningDriverVersionError> for WintunError {
    fn from(value: GetRunningDriverVersionError) -> (r: Self) {
        match value {
            GetRunningDriverVersionError::WintunNotLoaded => Self::WintunNotLoaded,
            GetRunningDriverVersionError::Other(err) => Self::Other(err),
        }
    }
}

impl vstd::std_specs::convert::FromSpecImpl<GetRunningDriverVersionError> for WintunError {
    open spec fn obeys_from_spec() -> bool {
        true
    }

    open spec fn from_spec(value: GetRunningDriverVersionError) -> WintunError {
        match value {
            GetRunningDriverVersionError::WintunNotLoaded => WintunError::WintunNotLoaded,
            GetRunningDriverVersionError::Other(err) => WintunError::Other(err),
        }
    }
}

impl From<ReceivePacketError> for WintunError {
    fn from(value: ReceivePacketError) -> (r: Self) {
        match value {
            ReceivePacketError::AdapterIsTerminating => Self::AdapterIsTerminating,
            ReceivePacketError::InvalidData => Self::InvalidData,
            ReceivePacketError::WouldBlock => Self::WouldBlock,
            ReceivePacketError::Other(err) => Self::Other(err),
        }
    }
}

impl vstd::std_specs::convert::FromSpecImpl<ReceivePacketError> for WintunError {
    open spec fn obeys_from_spec() -> bool {
        true
    }

    open spec fn from_spec(value: ReceivePacketError) -> WintunError {
        match value {
            ReceivePacketError::AdapterIsTerminating => WintunError::AdapterIsTerminating,
            ReceivePacketError::InvalidData => WintunError::InvalidData,
            ReceivePacketError::WouldBlock => WintunError::WouldBlock,
            ReceivePacketError::Other(err) => WintunError::Other(err),
        }
    }
}

impl From<AllocatePacketError> for WintunError {
    fn from(value: AllocatePacketError) -> (r: Self) {
        match value {
            AllocatePacketError::AdapterIsTerminating => Self::AdapterIsTerminating,
            AllocatePacketError::WouldBlock => Self::WouldBlock,
            AllocatePacketError::Other(err) => Self::Other(err),
        }
    }
}

impl vstd::std_specs::convert::FromSpecImpl<AllocatePacketError> for WintunError {
    open spec fn obeys_from_spec() -> bool {
        true
    }

    open spec fn from_spec(value: AllocatePacketError) -> WintunError {
        match value {
            AllocatePacketError::AdapterIsTerminating => WintunError::AdapterIsTerminating,
            AllocatePacketError::WouldBlock => WintunError::WouldBlock,
            AllocatePacketError::Other(err) => WintunError::Other(err),
        }
    }
}

impl From<RingCapacityError> for WintunError {
    fn from(value: RingCapacityError) -> (r: Self) {
        match value {
            RingCapacityError::InvalidInput => Self::InvalidRingCapacity,
        }
    }
}

impl vstd::std_specs::convert::FromSpecImpl<RingCapacityError> for WintunError {
    open spec fn obeys_from_spec() -> bool {
        true
    }

    open spec fn from_spec(value: RingCapacityError) -> WintunError {
        WintunError::InvalidRingCapacity
    }
}

impl From<IpPacketSizeError> for WintunError {
    fn from(value: IpPacketSizeError) -> (r: Self) {
        match value {
            IpPacketSizeError::InvalidInput => Self::InvalidPacketSize,
        }
    }
}

impl vstd::std_specs::convert::FromSpecImpl<IpPacketSizeError> for WintunError {
    open spec fn obeys_from_spec() -> bool {
        true
    }

    open spec fn from_spec(value: IpPacketSizeError) -> WintunError {
        WintunError::InvalidPacketSize
    }
}

impl From<IpMaskPrefixError> for WintunError {
    fn from(value: IpMaskPrefixError) -> (r: Self) {
        match value {
            IpMaskPrefixError::InvalidInput => Self::InvalidIpMaskPrefix,
        }
    }
}

impl vstd::std_specs::convert::FromSpecImpl<IpMaskPrefixError> for WintunError {
    open spec fn obeys_from_spec() -> bool {
        true
    }

    open spec fn from_spec(value: IpMaskPrefixError) -> WintunError {
        WintunError::InvalidIpMaskPrefix
    }
}

impl From<Win32Error> for WintunError {
    fn from(value: Win32Error) -> (r: Self) {
        Self::Other(value)
    }
}

impl vstd::std_specs::convert::FromSpecImpl<Win32Error> for WintunError {
    open spec fn obeys_from_spec() -> bool {
        true
    }

    open spec fn from_spec(value: Win32Error) -> WintunError {
        WintunError::Other(value)
    }
}

/// Decision half of the driver-delete entry point: the driver reports success
/// as a boolean, and the detailed code is fetched separately only on failure.
pub fn delete_driver_outcome(succeeded: bool, last_error_code: u32) -> (r: WintunResult<()>)
    ensures
        succeeded ==> r == WintunResult::<()>::Ok(()),
        !succeeded ==> r == WintunResult::<()>::Err(
            WintunError::Other((Win32Error { code: last_error_code })),
        ),
{
    if succeeded {
        Ok(())
    } else {
        Err(WintunError::Other(Win32Error::new(last_error_code)))
    }
}

/// Decision half of the driver-version query: a zero version means failure,
/// classified as `WintunNotLoaded` exactly when the OS reports that the
/// driver's file was not found.
pub fn driver_version_outcome(version: u32, last_error_code: u32) -> (r: Result<
    u32,
    GetRunningDriverVersionError,
>)
    ensures
        version != 0 ==> r == Result::<u32, GetRunningDriverVersionError>::Ok(version),
        version == 0 && last_error_code == ERROR_FILE_NOT_FOUND ==> r == Result::<
            u32,
            GetRunningDriverVersionError,
        >::Err(GetRunningDriverVersionError::WintunNotLoaded),
        version == 0 && last_error_code != ERROR_FILE_NOT_FOUND ==> r == Result::<
            u32,
            GetRunningDriverVersionError,
        >::Err(GetRunningDriverVersionError::Other((Win32Error { code: last_error_code }))),
{
    if version != 0 {
        return Ok(version);
    }
    if last_error_code == ERROR_FILE_NOT_FOUND {
        Err(GetRunningDriverVersionError::WintunNotLoaded)
    } else {
        Err(GetRunningDriverVersionError::Other(Win32Error::new(last_error_code)))
    }
}

/// The packet sizes a session can allocate: `1..=MAX_IP_PACKET_SIZE` bytes.
pub open spec fn ip_packet_size_valid(value: u32) -> bool {
    1 <= value <= MAX_IP_PACKET_SIZE
}

/// A validated IP packet size; construction through `try_from` is the single
/// validation point.
#[derive(Debug, Clone, Copy, PartialEq, Eq, PartialOrd, Ord, Structural)]
pub struct IpPacketSize(u32);

impl IpPacketSize {
    /// The packet size in bytes.
    pub closed spec fn spec_size(self) -> u32 {
        self.0
    }

    pub open spec fn wf(self) -> bool {
        ip_packet_size_valid(self.spec_size())
    }

    pub fn max() -> (r: Self)
        ensures
            r.spec_size() == MAX_IP_PACKET_SIZE,
            r.wf(),
    {
        Self(MAX_IP_PACKET_SIZE)
    }

    pub fn size(self) -> (r: u32)
        ensures
            r == self.spec_size(),
    {
        self.0
    }
}

impl TryFrom<u32> for IpPacketSize {
    type Error = IpPacketSizeError;

    fn try_from(value: u32) -> (r: Result<Self, IpPacketSizeError>) {
        if 1 <= value && value <= MAX_IP_PACKET_SIZE {
            Ok(Self(value))
        } else {
            Err(IpPacketSizeError::InvalidInput)
        }
    }
}

impl vstd::std_specs::convert::TryFromSpecImpl<u32> for IpPacketSize {
    open spec fn obeys_try_from_spec() -> bool {
        true
    }

    closed spec fn try_from_spec(value: u32) -> Result<Self, IpPacketSizeError> {
        if ip_packet_size_valid(value) {
            Ok(IpPacketSize(value))
        } else {
            Err(IpPacketSizeError::InvalidInput)
        }
    }
}

/// The prefix lengths an IPv4 network mask allows: `0..=32`.
pub open spec fn ipv4_mask_prefix_valid(value: u8) -> bool {
    value <= 32
}

/// A validated IPv4 mask prefix length; construction through `try_from` is the
/// single validation point.
#[derive(Debug, Clone, Copy, PartialEq, Eq, PartialOrd, Ord, Structural)]
pub struct Ipv4MaskPrefix(u8);

impl Ipv4MaskPrefix {
    /// The prefix length in bits.
    pub closed spec fn spec_mask(self) -> u8 {
        self.0
    }

    pub open spec fn wf(self) -> bool {
        ipv4_mask_prefix_valid(self.spec_mask())
    }

    pub fn mask(self) -> (r: u8)
        ensures
            r == self.spec_mask(),
    {
        self.0
    }
}

impl TryFrom<u8> for Ipv4MaskPrefix {
    type Error = IpMaskPrefixError;

    fn try_from(value: u8) -> (r: Result<Self, IpMaskPrefixError>) {
        if value <= 32 {
            Ok(Self(value))
        } else {
            Err(IpMaskPrefixError::InvalidInput)
        }
    }
}

impl vstd::std_specs::convert::TryFromSpecImpl<u8> for Ipv4MaskPrefix {
    open spec fn obeys_try_from_spec() -> bool {
        true
    }

    closed spec fn try_from_spec(value: u8) -> Result<Self, IpMaskPrefixError> {
        if ipv4_mask_prefix_valid(value) {
            Ok(Ipv4MaskPrefix(value))
        } else {
            Err(IpMaskPrefixError::InvalidInput)
        }
    }
}

/// The prefix lengths an IPv6 network mask allows: `0..=128`.
pub open spec fn ipv6_mask_prefix_valid(value: u8) -> bool {
    value <= 128
}

/// A validated IPv6 mask prefix length; construction through `try_from` is the
/// single validation point.
#[derive(Debug, Clone, Copy, PartialEq, Eq, PartialOrd, Ord, Structural)]
pub struct Ipv6MaskPrefix(u8);

impl Ipv6MaskPrefix {
    /// The prefix length in bits.
    pub closed spec fn spec_mask(self) -> u8 {
        self.0
    }

    pub open spec fn wf(self) -> bool {
        ipv6_mask_prefix_valid(self.spec_mask())
    }

    pub fn mask(self) -> (r: u8)
        ensures
            r == self.spec_mask(),
    {
        self.0
    }
}

impl TryFrom<u8> for Ipv6MaskPrefix {
    type Error = IpMaskPrefixError;

    fn try_from(value: u8) -> (r: Result<Self, IpMaskPrefixError>) {
        if value <= 128 {
            Ok(Self(value))
        } else {
            Err(IpMaskPrefixError::InvalidInput)
        }
    }
}

impl vstd::std_specs::convert::TryFromSpecImpl<u8> for Ipv6MaskPrefix {
    open spec fn obeys_try_from_spec() -> bool {
        true
    }

    closed spec fn try_from_spec(value: u8) -> Result<Self, IpMaskPrefixError> {
        if ipv6_mask_prefix_valid(value) {
            Ok(Ipv6MaskPrefix(value))
        } else {
            Err(IpMaskPrefixError::InvalidInput)
        }
    }
}

/// An IP address paired with its validated mask prefix length, the input of
/// `Adapter::set_ip_address`. Addresses are carried as plain octets.
#[derive(Debug, Clone, Copy, PartialEq, Eq)]
pub enum IpAndMaskPrefix {
    V4 { ip: [u8; 4], prefix: Ipv4MaskPrefix },
    V6 { ip: [u8; 16], prefix: Ipv6MaskPrefix },
}

/// The decimal digit characters.
pub open spec fn digit_char(d: nat) -> char {
    if d == 0 {
        '0'
    } else if d == 1 {
        '1'
    } else if d == 2 {
        '2'
    } else if d == 3 {
        '3'
    } else if d == 4 {
        '4'
    } else if d == 5 {
        '5'
    } else if d == 6 {
        '6'
    } else if d == 7 {
        '7'
    } else if d == 8 {
        '8'
    } else {
        '9'
    }
}

/// The decimal rendering of a number, most significant digit first, with no
/// leading zero except for zero itself.
pub open spec fn dec_digits(n: nat) -> Seq<char>
    decreases n,
{
    if n < 10 {
        seq![digit_char(n)]
    } else {
        dec_digits(n / 10) + seq![digit_char(n % 10)]
    }
}

/// Appends the decimal rendering of `n` to `out`.
fn push_decimal(out: &mut String, n: u64)
    ensures
        final(out)@ == old(out)@ + dec_digits(n as nat),
    decreases n,
{
    proof {
        reveal_strlit("0");
        reveal_strlit("1");
        reveal_strlit("2");
        reveal_strlit("3");
        reveal_strlit("4");
        reveal_strlit("5");
        reveal_strlit("6");
        reveal_strlit("7");
        reveal_strlit("8");
        reveal_strlit("9");
    }
    if n >= 10 {
        push_decimal(out, n / 10);
    }
    let d = n % 10;
    if d == 0 {
        out.append("0");
    } else if d == 1 {
        out.append("1");
    } else if d == 2 {
        out.append("2");
    } else if d == 3 {
        out.append("3");
    } else if d == 4 {
        out.append("4");
    } else if d == 5 {
        out.append("5");
    } else if d == 6 {
        out.append("6");
    } else if d == 7 {
        out.append("7");
    } else if d == 8 {
        out.append("8");
    } else {
        out.append("9");
    }
    proof {
        assert(out@ =~= old(out)@ + dec_digits(n as nat));
    }
}

/// The diagnostic text of each error kind: the bounds attempted against the
/// required ones, the offending position, or the wrapped OS code.
pub open spec fn spec_message(e: WintunError) -> Seq<char> {
    match e {
        WintunError::TooLongName { max, got } => {
            "WintunError: Too long string supplied. Max expected: "@ + dec_digits(max as nat)
                + ", received: "@ + dec_digits(got as nat)
        },
        WintunError::ContainsNull(pos) => {
            "WintunError: Received null byte in string at position: "@ + dec_digits(pos as nat)
        },
        WintunError::Other(err) => "WintunError: Win32Error: "@ + dec_digits(err.code as nat),
        WintunError::InvalidRingCapacity => {
            "WintunError: Ring capacity should be in range 131072..=67108864 and be a power of two"@
        },
        WintunError::InvalidPacketSize => {
            "WintunError: Ip packet size should be in range 1..=65535"@
        },
        WintunError::InvalidIpMaskPrefix => {
            "WintunError: Ip mask prefix should be in range 0..=32 or 0..=128 for Ipv4 and Ipv6 respectively"@
        },
        WintunError::WintunNotLoaded => "Wintun driver is not loaded"@,
        WintunError::AdapterIsTerminating => "Tried to perform operation on terminated adapter"@,
        WintunError::WouldBlock => "Requested operation would block"@,
        WintunError::InvalidData => "Buffer contained invalid data"@,
        WintunError::InterfaceNotFound => "Failed to find interface for specified guid"@,
    }
}

impl WintunError {
    /// Renders the error for diagnostics, exactly as `spec_message` says.
    pub fn message(&self) -> (r: String)
        ensures
            r@ == spec_message(*self),
    {
        match self {
            WintunError::TooLongName { max, got } => {
                let mut s = "WintunError: Too long string supplied. Max expected: ".to_owned();
                push_decimal(&mut s, *max as u64);
                s.append(", received: ");
                push_decimal(&mut s, *got as u64);
                s
            },
            WintunError::ContainsNull(pos) => {
                let mut s = "WintunError: Received null byte in string at position: ".to_owned();
                push_decimal(&mut s, *pos as u64);
                s
            },
            WintunError::Other(err) => {
                let mut s = "WintunError: Win32Error: ".to_owned();
                push_decimal(&mut s, err.code as u64);
                s
            },
            WintunError::InvalidRingCapacity => {
                "WintunError: Ring capacity should be in range 131072..=67108864 and be a power of two".to_owned()
            },
            WintunError::InvalidPacketSize => {
                "WintunError: Ip packet size should be in range 1..=65535".to_owned()
            },
            WintunError::InvalidIpMaskPrefix => {
                "WintunError: Ip mask prefix should be in range 0..=32 or 0..=128 for Ipv4 and Ipv6 respectively".to_owned()
            },
            WintunError::WintunNotLoaded => "Wintun driver is not loaded".to_owned(),
            WintunError::AdapterIsTerminating => {
                "Tried to perform operation on terminated adapter".to_owned()
            },
            WintunError::WouldBlock => "Requested operation would block".to_owned(),
            WintunError::InvalidData => "Buffer contained invalid data".to_owned(),
            WintunError::InterfaceNotFound => {
                "Failed to find interface for specified guid".to_owned()
            },
        }
    }
}

/// A process-wide log sink. The surrounding program owns the registration
/// slot and the driver-invoked trampoline; a registered callback receives the
/// driver's level, the timestamp converted to microseconds since the Unix
/// epoch, and the decoded message.
pub trait LoggerCallback: Send + Sync {
    fn log(&self, level: i32, timestamp_unix_micros: u64, message: &str);
}

/// Seconds between 1601-01-01, the epoch of the driver's timestamps, and the
/// Unix epoch.
pub const SECS_FROM_1601_TO_UNIX_EPOCH: u64 = 11_644_473_600;

/// Converts a driver log timestamp, in 100-nanosecond ticks since 1601-01-01,
/// to microseconds since the Unix epoch. A timestamp before the Unix epoch
/// yields nothing, so that the logging path never panics.
pub fn log_timestamp_unix_micros(ticks: u64) -> (r: Option<u64>)
    ensures
        ticks / 10 >= SECS_FROM_1601_TO_UNIX_EPOCH * 1_000_000 ==> r == Some(
            (ticks / 10 - SECS_FROM_1601_TO_UNIX_EPOCH * 1_000_000) as u64,
        ),
        ticks / 10 < SECS_FROM_1601_TO_UNIX_EPOCH * 1_000_000 ==> r is None,
{
    let micros = ticks / 10;
    let offset: u64 = SECS_FROM_1601_TO_UNIX_EPOCH * 1_000_000;
    if micros >= offset {
        Some(micros - offset)
    } else {
        None
    }
}

/// A ring capacity converts from `u32` exactly when the value is a power of
/// two within `[MIN_RING_CAPACITY, MAX_RING_CAPACITY]`; the converted value
/// carries the capacity unchanged, and a rejected one reports `InvalidInput`.
pub proof fn lemma_ring_capacity_try_from(value: u32)
    ensures
        (<RingCapacity as vstd::std_specs::convert::TryFromSpec<u32>>::try_from_spec(value)
            is Ok) <==> ring_capacity_valid(value),
        <RingCapacity as vstd::std_specs::convert::TryFromSpec<u32>>::try_from_spec(value)
            matches Ok(c) ==> c.spec_cap() == value && c.wf(),
        !ring_capacity_valid(value)
            ==> <RingCapacity as vstd::std_specs::convert::TryFromSpec<u32>>::try_from_spec(value)
            == Result::<RingCapacity, RingCapacityError>::Err(RingCapacityError::InvalidInput),
{
}

/// A packet size converts from `u32` exactly when `1 <= value <= MAX_IP_PACKET_SIZE`;
/// the converted value carries the size unchanged, and a rejected one reports
/// `InvalidInput`.
pub proof fn lemma_ip_packet_size_try_from(value: u32)
    ensures
        (<IpPacketSize as vstd::std_specs::convert::TryFromSpec<u32>>::try_from_spec(value)
            is Ok) <==> ip_packet_size_valid(value),
        <IpPacketSize as vstd::std_specs::convert::TryFromSpec<u32>>::try_from_spec(value)
            matches Ok(s) ==> s.spec_size() == value && s.wf(),
        !ip_packet_size_valid(value)
            ==> <IpPacketSize as vstd::std_specs::convert::TryFromSpec<u32>>::try_from_spec(value)
            == Result::<IpPacketSize, IpPacketSizeError>::Err(IpPacketSizeError::InvalidInput),
{
}

/// An IPv4 mask prefix converts from `u8` exactly when `value <= 32`; an IPv6
/// one exactly when `value <= 128`; the converted value carries the prefix
/// unchanged, and a rejected one reports `InvalidInput`.
pub proof fn lemma_mask_prefix_try_from(value: u8)
    ensures
        (<Ipv4MaskPrefix as vstd::std_specs::convert::TryFromSpec<u8>>::try_from_spec(value)
            is Ok) <==> ipv4_mask_prefix_valid(value),
        <Ipv4MaskPrefix as vstd::std_specs::convert::TryFromSpec<u8>>::try_from_spec(value)
            matches Ok(p) ==> p.spec_mask() == value && p.wf(),
        (<Ipv6MaskPrefix as vstd::std_specs::convert::TryFromSpec<u8>>::try_from_spec(value)
            is Ok) <==> ipv6_mask_prefix_valid(value),
        <Ipv6MaskPrefix as vstd::std_specs::convert::TryFromSpec<u8>>::try_from_spec(value)
            matches Ok(p) ==> p.spec_mask() == value && p.wf(),
{
}

} // verus!
