use vstd::prelude::*;

verus! {

use crate::packet::{RecvPacket, SendPacket};
use crate::{
    AllocatePacketError, IpPacketSize, ReceivePacketError, Win32Error, WintunError, WintunResult,
    ERROR_BUFFER_OVERFLOW, ERROR_HANDLE_EOF, ERROR_INVALID_DATA, ERROR_NO_MORE_ITEMS,
};

/// The receive-failure classification: the OS code fetched after a failed
/// receive, mapped to the narrowest applicable kind.
pub open spec fn spec_classify_receive_error(code: u32) -> ReceivePacketError {
    if code == ERROR_HANDLE_EOF {
        ReceivePacketError::AdapterIsTerminating
    } else if code == ERROR_NO_MORE_ITEMS {
        ReceivePacketError::WouldBlock
    } else if code == ERROR_INVALID_DATA {
        ReceivePacketError::InvalidData
    } else {
        ReceivePacketError::Other(Win32Error { code })
    }
}

/// The allocation-failure classification: the OS code fetched after a failed
/// send-buffer allocation, mapped to the narrowest applicable kind.
pub open spec fn spec_classify_allocate_error(code: u32) -> AllocatePacketError {
    if code == ERROR_HANDLE_EOF {
        AllocatePacketError::AdapterIsTerminating
    } else if code == ERROR_BUFFER_OVERFLOW {
        AllocatePacketError::WouldBlock
    } else {
        AllocatePacketError::Other(Win32Error { code })
    }
}

/// One packet-exchange channel on an adapter's ring buffer. The driver's
/// session handle is held as a plain integer; the surrounding program makes
/// the foreign calls and hands each call's results to the decision functions
/// here.
#[derive(Debug)]
pub struct Session {
    handle: u64,
    ended: bool,
}

impl Session {
    /// The driver handle this session owns.
    pub closed spec fn spec_handle(self) -> u64 {
        self.handle
    }

    /// Whether the session's one teardown action has already been taken.
    pub closed spec fn spec_ended(self) -> bool {
        self.ended
    }

    /// Wraps the non-null session handle the driver returned.
    pub fn new(handle: u64) -> (r: Session)
        ensures
            r.spec_handle() == handle,
            !r.spec_ended(),
    {
        Session { handle, ended: false }
    }

    pub fn handle(&self) -> (r: u64)
        ensures
            r == self.spec_handle(),
    {
        self.handle
    }

    /// Ends the session: the first call yields the handle on which the
    /// driver's end-session call must be made; later calls yield nothing, so
    /// the teardown happens exactly once.
    pub fn end(&mut self) -> (r: Option<u64>)
        ensures
            final(self).spec_ended(),
            final(self).spec_handle() == old(self).spec_handle(),
            !old(self).spec_ended() ==> r == Some(old(self).spec_handle()),
            old(self).spec_ended() ==> r is None,
    {
        if self.ended {
            None
        } else {
            self.ended = true;
            Some(self.handle)
        }
    }

    /// Decision half of a receive: the driver returned a buffer address
    /// (zero for null) and its length, and on failure the OS code was
    /// fetched. A null buffer is classified; anything else becomes a packet
    /// of this session, with no copy of the data.
    pub fn recv_outcome(&self, data: u64, size: u32, last_error_code: u32) -> (r: Result<
        RecvPacket,
        ReceivePacketError,
    >)
        requires
            !self.spec_ended(),
        ensures
            data == 0 ==> r == Result::<RecvPacket, ReceivePacketError>::Err(
                spec_classify_receive_error(last_error_code),
            ),
            data != 0 ==> (r matches Ok(p) && p.spec_session() == self.spec_handle()
                && p.spec_data() == data && p.spec_size() == size && !p.spec_released()),
    {
        if data == 0 {
            Err(Self::classify_receive_error(last_error_code))
        } else {
            Ok(RecvPacket::from_raw(self.handle, data, size))
        }
    }

    /// Decision half of a send-buffer allocation: the driver returned a
    /// buffer address (zero for null) for a buffer of exactly `size` bytes,
    /// and on failure the OS code was fetched.
    pub fn allocate_outcome(&self, data: u64, size: IpPacketSize, last_error_code: u32) -> (r:
        Result<SendPacket, AllocatePacketError>)
        requires
            !self.spec_ended(),
        ensures
            data == 0 ==> r == Result::<SendPacket, AllocatePacketError>::Err(
                spec_classify_allocate_error(last_error_code),
            ),
            data != 0 ==> (r matches Ok(p) && p.spec_session() == self.spec_handle()
                && p.spec_data() == data && p.spec_size() == size.spec_size() && !p.spec_sent()),
    {
        if data == 0 {
            Err(Self::classify_allocate_error(last_error_code))
        } else {
            Ok(SendPacket::from_raw(self.handle, data, size.size()))
        }
    }

    /// Decision half of the read-wait-event query: a null event handle means
    /// failure, reported with the fetched OS code.
    pub fn read_wait_event_outcome(&self, event: u64, last_error_code: u32) -> (r: WintunResult<
        u64,
    >)
        requires
            !self.spec_ended(),
        ensures
            event == 0 ==> r == WintunResult::<u64>::Err(
                WintunError::Other((Win32Error { code: last_error_code })),
            ),
            event != 0 ==> r == WintunResult::<u64>::Ok(event),
    {
        if event == 0 {
            Err(WintunError::Other(Win32Error::new(last_error_code)))
        } else {
            Ok(event)
        }
    }

    /// Maps a failed receive's OS code to its kind, exactly as
    /// `spec_classify_receive_error` says.
    pub fn classify_receive_error(last_error_code: u32) -> (r: ReceivePacketError)
        ensures
            r == spec_classify_receive_error(last_error_code),
    {
        if last_error_code == ERROR_HANDLE_EOF {
            ReceivePacketError::AdapterIsTerminating
        } else if last_error_code == ERROR_NO_MORE_ITEMS {
            ReceivePacketError::WouldBlock
        } else if last_error_code == ERROR_INVALID_DATA {
            ReceivePacketError::InvalidData
        } else {
            ReceivePacketError::Other(Win32Error::new(last_error_code))
        }
    }

    /// Maps a failed allocation's OS code to its kind, exactly as
    /// `spec_classify_allocate_error` says.
    pub fn classify_allocate_error(last_error_code: u32) -> (r: AllocatePacketError)
        ensures
            r == spec_classify_allocate_error(last_error_code),
    {
        if last_error_code == ERROR_HANDLE_EOF {
            AllocatePacketError::AdapterIsTerminating
        } else if last_error_code == ERROR_BUFFER_OVERFLOW {
            AllocatePacketError::WouldBlock
        } else {
            AllocatePacketError::Other(Win32Error::new(last_error_code))
        }
    }
}

} // verus!
