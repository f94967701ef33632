use vstd::prelude::*;

verus! {

use crate::session::Session;
use crate::utility::{
    embedded_guid_of, encode_utf16, encoded_name, has_interior_nul, interface_embedded_guid,
    spec_guid_from_u128, utf16_encode, Guid,
};
use crate::{
    IpAndMaskPrefix, Win32Error, WintunError, WintunResult, MAX_ADAPTER_NAME, NO_ERROR,
};

/// Address family tag of an IPv4 unicast address record.
pub const AF_INET: u16 = 2;

/// Address family tag of an IPv6 unicast address record.
pub const AF_INET6: u16 = 23;

/// DHCP-style origin tag for the record's prefix.
pub const IP_PREFIX_ORIGIN_DHCP: u32 = 3;

/// DHCP-style origin tag for the record's suffix.
pub const IP_SUFFIX_ORIGIN_DHCP: u32 = 3;

/// Lifetime value meaning "never expires".
pub const LIFETIME_INFINITE: u32 = 0xFFFF_FFFF;

/// Duplicate-address-detection state "preferred".
pub const IP_DAD_STATE_PREFERRED: u32 = 4;

/// A driver-facing name is acceptable when its UTF-16 encoding has no
/// interior nul and at most `MAX_ADAPTER_NAME - 1` units, the implicit
/// terminator not counted.
pub open spec fn adapter_name_ok(s: Seq<char>) -> bool {
    &&& !has_interior_nul(s)
    &&& encoded_name(s).len() <= MAX_ADAPTER_NAME - 1
}

/// The validated inputs of an adapter-creation call, ready for the driver:
/// both names encoded as UTF-16, and the caller's identifier hint unpacked
/// into the driver-native layout verbatim.
#[derive(Debug)]
pub struct CreateRequest {
    pub name_units: Vec<u16>,
    pub tunnel_type_units: Vec<u16>,
    pub requested_guid: Option<Guid>,
}

/// One named virtual network interface instance known to the driver. The
/// driver's adapter handle is held as a plain integer; the surrounding
/// program makes the foreign calls and hands their results to the decision
/// functions here.
#[derive(Debug)]
pub struct Adapter {
    handle: u64,
    name: String,
    closed: bool,
}

impl Adapter {
    /// The driver handle this adapter owns.
    pub closed spec fn spec_handle(self) -> u64 {
        self.handle
    }

    /// The display name the adapter was created or opened under.
    pub closed spec fn spec_name(self) -> Seq<char> {
        self.name@
    }

    /// Whether the adapter's one close action has already been taken.
    pub closed spec fn spec_closed(self) -> bool {
        self.closed
    }

    /// Validates the inputs of an adapter creation: both names must encode to
    /// at most `MAX_ADAPTER_NAME - 1` UTF-16 units with no interior nul, the
    /// name checked first; a violation is reported before any driver call.
    /// The identifier hint is passed through with no byte-order change.
    pub fn create_request(name: &str, tunnel_type: &str, requested_guid: Option<u128>) -> (r:
        Result<CreateRequest, WintunError>)
        ensures
            has_interior_nul(name@) ==> (r matches Err(WintunError::ContainsNull(pos))
                && utf16_encode(name@)[pos as int] == 0 && pos + 1 < utf16_encode(name@).len() && (
            forall|i: int| 0 <= i < pos ==> utf16_encode(name@)[i] != 0)),
            !has_interior_nul(name@) && encoded_name(name@).len() > MAX_ADAPTER_NAME - 1 ==> (
            r matches Err(WintunError::TooLongName { max, got }) && max == MAX_ADAPTER_NAME - 1
                && got == encoded_name(name@).len()),
            adapter_name_ok(name@) && has_interior_nul(tunnel_type@) ==> (r matches Err(
                WintunError::ContainsNull(pos),
            ) && utf16_encode(tunnel_type@)[pos as int] == 0 && pos + 1 < utf16_encode(
                tunnel_type@,
            ).len() && (forall|i: int| 0 <= i < pos ==> utf16_encode(tunnel_type@)[i] != 0)),
            adapter_name_ok(name@) && !has_interior_nul(tunnel_type@) && encoded_name(
                tunnel_type@,
            ).len() > MAX_ADAPTER_NAME - 1 ==> (r matches Err(WintunError::TooLongName { max, got })
                && max == MAX_ADAPTER_NAME - 1 && got == encoded_name(tunnel_type@).len()),
            adapter_name_ok(name@) && adapter_name_ok(tunnel_type@) ==> (r matches Ok(req)
                && req.name_units@ == encoded_name(name@) && req.tunnel_type_units@ == encoded_name(
                tunnel_type@,
            ) && (match requested_guid {
                Some(g) => req.requested_guid == Some(spec_guid_from_u128(g)),
                None => req.requested_guid is None,
            })),
    {
        let name_units = match encode_utf16(name, MAX_ADAPTER_NAME - 1) {
            Ok(units) => units,
            Err(e) => {
                return Err(e);
            },
        };
        let tunnel_type_units = match encode_utf16(tunnel_type, MAX_ADAPTER_NAME - 1) {
            Ok(units) => units,
            Err(e) => {
                return Err(e);
            },
        };
        let requested = match requested_guid {
            Some(g) => Some(crate::utility::guid_from_u128(g)),
            None => None,
        };
        Ok(CreateRequest { name_units, tunnel_type_units, requested_guid: requested })
    }

    /// Validates the name of an adapter-open call: the same constraints as at
    /// creation, reported before any driver call.
    pub fn open_request(name: &str) -> (r: Result<Vec<u16>, WintunError>)
        ensures
            has_interior_nul(name@) ==> (r matches Err(WintunError::ContainsNull(pos))
                && utf16_encode(name@)[pos as int] == 0 && pos + 1 < utf16_encode(name@).len() && (
            forall|i: int| 0 <= i < pos ==> utf16_encode(name@)[i] != 0)),
            !has_interior_nul(name@) && encoded_name(name@).len() > MAX_ADAPTER_NAME - 1 ==> (
            r matches Err(WintunError::TooLongName { max, got }) && max == MAX_ADAPTER_NAME - 1
                && got == encoded_name(name@).len()),
            adapter_name_ok(name@) ==> (r matches Ok(units) && units@ == encoded_name(name@)),
    {
        encode_utf16(name, MAX_ADAPTER_NAME - 1)
    }

    /// Validates a reopen-by-name of this adapter: the request an independent
    /// second handle is opened with, built from the stored name.
    pub fn reopen_request(&self) -> (r: Result<Vec<u16>, WintunError>)
        ensures
            adapter_name_ok(self.spec_name()) ==> (r matches Ok(units) && units@ == encoded_name(
                self.spec_name(),
            )),
            has_interior_nul(self.spec_name()) ==> (r matches Err(WintunError::ContainsNull(_))),
            !has_interior_nul(self.spec_name()) && encoded_name(self.spec_name()).len()
                > MAX_ADAPTER_NAME - 1 ==> (r matches Err(WintunError::TooLongName { max, got })
                && max == MAX_ADAPTER_NAME - 1 && got == encoded_name(self.spec_name()).len()),
    {
        Self::open_request(self.name.as_str())
    }

    /// Decision half of adapter creation or opening: a null driver handle
    /// (zero) means failure, reported with the fetched OS code; anything else
    /// becomes an adapter that owns the handle under the given name.
    pub fn from_driver_handle(name: &str, handle: u64, last_error_code: u32) -> (r: WintunResult<
        Adapter,
    >)
        ensures
            handle == 0 ==> r == WintunResult::<Adapter>::Err(
                WintunError::Other((Win32Error { code: last_error_code })),
            ),
            handle != 0 ==> (r matches Ok(a) && a.spec_handle() == handle && a.spec_name() == name@
                && !a.spec_closed()),
    {
        if handle == 0 {
            Err(WintunError::Other(Win32Error::new(last_error_code)))
        } else {
            Ok(Adapter { handle, name: name.to_owned(), closed: false })
        }
    }

    pub fn handle(&self) -> (r: u64)
        ensures
            r == self.spec_handle(),
    {
        self.handle
    }

    /// Closes the adapter: the first call yields the handle on which the
    /// driver's close call must be made; later calls yield nothing, so the
    /// teardown happens exactly once.
    pub fn close(&mut self) -> (r: Option<u64>)
        ensures
            final(self).spec_closed(),
            final(self).spec_handle() == old(self).spec_handle(),
            final(self).spec_name() == old(self).spec_name(),
            !old(self).spec_closed() ==> r == Some(old(self).spec_handle()),
            old(self).spec_closed() ==> r is None,
    {
        if self.closed {
            None
        } else {
            self.closed = true;
            Some(self.handle)
        }
    }

    /// Decision half of starting a session on this adapter: a null session
    /// handle (zero) means the driver refused, reported with the fetched OS
    /// code; anything else becomes a live session owning that handle.
    pub fn session_outcome(&self, session_handle: u64, last_error_code: u32) -> (r: WintunResult<
        Session,
    >)
        requires
            !self.spec_closed(),
        ensures
            session_handle == 0 ==> r == WintunResult::<Session>::Err(
                WintunError::Other((Win32Error { code: last_error_code })),
            ),
            session_handle != 0 ==> (r matches Ok(s) && s.spec_handle() == session_handle
                && !s.spec_ended()),
    {
        if session_handle == 0 {
            Err(WintunError::Other(Win32Error::new(last_error_code)))
        } else {
            Ok(Session::new(session_handle))
        }
    }
}

/// One unicast-address configuration record, bound to an adapter's LUID, in
/// plain values: what the OS's address-table insertion is handed.
#[derive(Debug)]
pub struct UnicastIpAddressRow {
    pub luid: u64,
    pub family: u16,
    pub address_v4: [u8; 4],
    pub address_v6: [u8; 16],
    pub on_link_prefix_length: u8,
    pub prefix_origin: u32,
    pub suffix_origin: u32,
    pub valid_lifetime: u32,
    pub preferred_lifetime: u32,
    pub dad_state: u32,
}

/// Builds the unicast-address record for one IP assignment: DHCP-style
/// origins, infinite lifetimes, "preferred" duplicate-address-detection
/// state, the adapter's LUID, and the address and prefix of the chosen
/// family; the other family's address lane stays zero.
pub fn build_unicast_row(luid: u64, internal_ip: IpAndMaskPrefix) -> (r: UnicastIpAddressRow)
    ensures
        r.luid == luid,
        r.prefix_origin == IP_PREFIX_ORIGIN_DHCP,
        r.suffix_origin == IP_SUFFIX_ORIGIN_DHCP,
        r.valid_lifetime == LIFETIME_INFINITE,
        r.preferred_lifetime == LIFETIME_INFINITE,
        r.dad_state == IP_DAD_STATE_PREFERRED,
        internal_ip matches IpAndMaskPrefix::V4 { ip, prefix } ==> (r.family == AF_INET
            && r.address_v4@ == ip@ && r.on_link_prefix_length == prefix.spec_mask()
            && r.address_v6@ =~= Seq::new(16, |i: int| 0u8)),
        internal_ip matches IpAndMaskPrefix::V6 { ip, prefix } ==> (r.family == AF_INET6
            && r.address_v6@ == ip@ && r.on_link_prefix_length == prefix.spec_mask()
            && r.address_v4@ =~= Seq::new(4, |i: int| 0u8)),
{
    match internal_ip {
        IpAndMaskPrefix::V4 { ip, prefix } => UnicastIpAddressRow {
            luid,
            family: AF_INET,
            address_v4: ip,
            address_v6: [0u8; 16],
            on_link_prefix_length: prefix.mask(),
            prefix_origin: IP_PREFIX_ORIGIN_DHCP,
            suffix_origin: IP_SUFFIX_ORIGIN_DHCP,
            valid_lifetime: LIFETIME_INFINITE,
            preferred_lifetime: LIFETIME_INFINITE,
            dad_state: IP_DAD_STATE_PREFERRED,
        },
        IpAndMaskPrefix::V6 { ip, prefix } => UnicastIpAddressRow {
            luid,
            family: AF_INET6,
            address_v4: [0u8; 4],
            address_v6: ip,
            on_link_prefix_length: prefix.mask(),
            prefix_origin: IP_PREFIX_ORIGIN_DHCP,
            suffix_origin: IP_SUFFIX_ORIGIN_DHCP,
            valid_lifetime: LIFETIME_INFINITE,
            preferred_lifetime: LIFETIME_INFINITE,
            dad_state: IP_DAD_STATE_PREFERRED,
        },
    }
}

/// Decision half of submitting a unicast-address record: the OS returns a
/// status code, and only on a non-zero status is the detailed code fetched.
pub fn set_ip_address_outcome(status: u32, last_error_code: u32) -> (r: WintunResult<()>)
    ensures
        status == NO_ERROR ==> r == WintunResult::<()>::Ok(()),
        status != NO_ERROR ==> r == WintunResult::<()>::Err(
            WintunError::Other((Win32Error { code: last_error_code })),
        ),
{
    if status == NO_ERROR {
        Ok(())
    } else {
        Err(WintunError::Other(Win32Error::new(last_error_code)))
    }
}

/// One entry of the OS's interface enumeration: the numeric interface index
/// and the internal device name, which may embed a braced GUID string.
#[derive(Debug)]
pub struct InterfaceInfo {
    pub index: u32,
    pub name: String,
}

/// An enumerated interface matches an adapter when its device name embeds a
/// well-formed GUID denoting the adapter's identifier.
pub open spec fn interface_matches(name: Seq<char>, guid: u128) -> bool {
    embedded_guid_of(name) == Some(guid)
}

/// Resolves the OS-visible interface index of the adapter whose identifier is
/// `guid` from the enumerated interface table: the first interface whose
/// device name embeds that identifier wins; interfaces without a well-formed
/// embedded GUID are skipped; with no match at all the lookup reports
/// `InterfaceNotFound`.
pub fn find_adapter_index(guid: u128, interfaces: &Vec<InterfaceInfo>) -> (r: WintunResult<u32>)
    ensures
        r matches Ok(idx) ==> (exists|i: int|
            0 <= i < interfaces@.len() && #[trigger] interface_matches(interfaces@[i].name@, guid)
                && interfaces@[i].index == idx && (forall|j: int|
                0 <= j < i ==> !interface_matches(#[trigger] interfaces@[j].name@, guid))),
        r matches Err(e) ==> (e == WintunError::InterfaceNotFound && (forall|i: int|
            0 <= i < interfaces@.len() ==> !interface_matches(
                #[trigger] interfaces@[i].name@,
                guid,
            ))),
{
    let n = interfaces.len();
    let mut i: usize = 0;
    while i < n
        invariant
            n == interfaces@.len(),
            0 <= i <= n,
            forall|j: int| 0 <= j < i ==> !interface_matches(#[trigger] interfaces@[j].name@, guid),
        decreases n - i,
    {
        let info = &interfaces[i];
        match interface_embedded_guid(info.name.as_str()) {
            Some(g) => {
                if g == guid {
                    proof {
                        assert(interface_matches(interfaces@[i as int].name@, guid));
                    }
                    return Ok(info.index);
                }
            },
            None => {},
        }
        proof {
            assert(!interface_matches(interfaces@[i as int].name@, guid));
        }
        i = i + 1;
    }
    Err(WintunError::InterfaceNotFound)
}

} // verus!
