use vstd::prelude::*;

verus! {

/// One driver-owned receive buffer, scoped to the session that produced it.
/// The buffer's address and length are carried as plain integers; the
/// surrounding program holds the real pointer and performs the one foreign
/// release call this type schedules.
#[derive(Debug)]
pub struct RecvPacket {
    session: u64,
    data: u64,
    size: u32,
    released: bool,
}

impl RecvPacket {
    /// The handle of the session this packet came from.
    pub closed spec fn spec_session(self) -> u64 {
        self.session
    }

    /// The driver-owned buffer's address.
    pub closed spec fn spec_data(self) -> u64 {
        self.data
    }

    /// The buffer's length in bytes.
    pub closed spec fn spec_size(self) -> u32 {
        self.size
    }

    /// Whether the packet's one release action has already been taken.
    pub closed spec fn spec_released(self) -> bool {
        self.released
    }

    pub(crate) fn from_raw(session: u64, data: u64, size: u32) -> (r: RecvPacket)
        ensures
            r.spec_session() == session,
            r.spec_data() == data,
            r.spec_size() == size,
            !r.spec_released(),
    {
        RecvPacket { session, data, size, released: false }
    }

    pub fn size(&self) -> (r: u32)
        ensures
            r == self.spec_size(),
    {
        self.size
    }

    pub fn data_addr(&self) -> (r: u64)
        ensures
            r == self.spec_data(),
    {
        self.data
    }

    /// Releases the buffer back to the ring: the first call yields the
    /// session handle and buffer address on which the driver's release call
    /// must be made; later calls yield nothing, so the buffer goes back
    /// exactly once.
    pub fn release(&mut self) -> (r: Option<(u64, u64)>)
        ensures
            final(self).spec_released(),
            final(self).spec_session() == old(self).spec_session(),
            final(self).spec_data() == old(self).spec_data(),
            final(self).spec_size() == old(self).spec_size(),
            !old(self).spec_released() ==> r == Some(
                (old(self).spec_session(), old(self).spec_data()),
            ),
            old(self).spec_released() ==> r is None,
    {
        if self.released {
            None
        } else {
            self.released = true;
            Some((self.session, self.data))
        }
    }
}

/// One driver-owned send buffer, scoped to the session that allocated it.
/// The caller fills the real buffer through the surrounding program; this
/// type schedules the one foreign submit call.
#[derive(Debug)]
pub struct SendPacket {
    session: u64,
    data: u64,
    size: u32,
    sent: bool,
}

impl SendPacket {
    /// The handle of the session this packet was allocated from.
    pub closed spec fn spec_session(self) -> u64 {
        self.session
    }

    /// The driver-owned buffer's address.
    pub closed spec fn spec_data(self) -> u64 {
        self.data
    }

    /// The buffer's length in bytes.
    pub closed spec fn spec_size(self) -> u32 {
        self.size
    }

    /// Whether the packet's one submit action has already been taken.
    pub closed spec fn spec_sent(self) -> bool {
        self.sent
    }

    pub(crate) fn from_raw(session: u64, data: u64, size: u32) -> (r: SendPacket)
        ensures
            r.spec_session() == session,
            r.spec_data() == data,
            r.spec_size() == size,
            !r.spec_sent(),
    {
        SendPacket { session, data, size, sent: false }
    }

    pub fn size(&self) -> (r: u32)
        ensures
            r == self.spec_size(),
    {
        self.size
    }

    pub fn data_addr(&self) -> (r: u64)
        ensures
            r == self.spec_data(),
    {
        self.data
    }

    /// Submits the buffer for transmission: the first call yields the session
    /// handle and buffer address on which the driver's send call must be
    /// made; later calls yield nothing, so the buffer is submitted exactly
    /// once. Submission does not inspect the payload.
    pub fn send(&mut self) -> (r: Option<(u64, u64)>)
        ensures
            final(self).spec_sent(),
            final(self).spec_session() == old(self).spec_session(),
            final(self).spec_data() == old(self).spec_data(),
            final(self).spec_size() == old(self).spec_size(),
            !old(self).spec_sent() ==> r == Some((old(self).spec_session(), old(self).spec_data())),
            old(self).spec_sent() ==> r is None,
    {
        if self.sent {
            None
        } else {
            self.sent = true;
            Some((self.session, self.data))
        }
    }
}

} // verus!
