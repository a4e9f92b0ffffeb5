use vstd::prelude::*;

verus! {

/// Failures reported by a platform binding of the tunnel interface.
#[derive(Clone, Copy, Debug, PartialEq, Eq, Structural)]
pub enum Error {
    /// The interface could not be opened or created (permission, allocation).
    IfaceOpen(i32),
    /// The interface name was rejected by the platform.
    InvalidTunnelName,
    /// An OS query on the open interface (name, MTU) failed.
    IfaceQuery(i32),
    /// Reading a packet from the interface failed with the given errno.
    IfaceRead(i32),
}

/// What a failed read means to the readiness-driven caller.
#[derive(Clone, Copy, Debug, PartialEq, Eq, Structural)]
pub enum ReadFault {
    /// The OS refused the read; the errno is kept so that the caller can tell
    /// "would block" from a real fault.
    Os(i32),
    /// Any other failure of the binding: a bug in the platform layer, on which
    /// the process must not go on.
    Unexpected(Error),
}

/// The platform binding that owns the OS handle of one tunnel interface.
pub trait TunBackend: Sized {
    /// The name of the interface this handle is bound to.
    spec fn name_spec(&self) -> Seq<char>;

    /// Opens (creating if necessary) the interface called `name`. On success
    /// the handle is bound to that name; a failure is an open failure or a
    /// rejected name.
    fn open(name: &str) -> (r: Result<Self, Error>)
        ensures
            r is Ok ==> r->Ok_0.name_spec() == name@,
            r is Err ==> (r->Err_0 is IfaceOpen || r->Err_0 is InvalidTunnelName),
    ;

    /// The OS-reported name of the interface; a failed query is `IfaceQuery`.
    fn name(&self) -> (r: Result<String, Error>)
        ensures
            r is Ok ==> r->Ok_0@ == self.name_spec(),
            r is Err ==> r->Err_0 is IfaceQuery,
    ;

    /// The MTU as the OS reports it at the time of the call (it may change
    /// from outside between calls); a failed query is `IfaceQuery`.
    fn mtu(&self) -> (r: Result<usize, Error>)
        ensures
            r is Err ==> r->Err_0 is IfaceQuery,
    ;

    /// Injects an IPv4 packet; returns how many bytes the OS accepted.
    fn write4(&self, src: &[u8]) -> (r: usize)
        ensures
            r <= src@.len(),
    ;

    /// Injects an IPv6 packet; returns how many bytes the OS accepted.
    fn write6(&self, src: &[u8]) -> (r: usize)
        ensures
            r <= src@.len(),
    ;

    /// One OS-level read into `buf`; returns the number of bytes filled.
    fn read(&mut self, buf: &mut [u8]) -> (r: Result<usize, Error>)
        ensures
            final(buf)@.len() == old(buf)@.len(),
            r is Ok ==> r->Ok_0 <= old(buf)@.len(),
            final(self).name_spec() == old(self).name_spec(),
    ;

    /// The descriptor that a readiness multiplexer watches.
    fn raw_fd(&self) -> (r: i32);
}

/// How a binding's read result is reported to the caller.
pub open spec fn read_outcome_spec(r: Result<usize, Error>) -> Result<usize, ReadFault> {
    match r {
        Ok(n) => Ok(n),
        Err(Error::IfaceRead(errno)) => Err(ReadFault::Os(errno)),
        Err(e) => Err(ReadFault::Unexpected(e)),
    }
}

/// Maps a binding's read result: a filled length is passed on, a failed
/// interface read keeps its errno, anything else is unexpected.
pub fn read_outcome(r: Result<usize, Error>) -> (out: Result<usize, ReadFault>)
    ensures
        out == read_outcome_spec(r),
{
    match r {
        Ok(n) => Ok(n),
        Err(Error::IfaceRead(errno)) => Err(ReadFault::Os(errno)),
        Err(e) => Err(ReadFault::Unexpected(e)),
    }
}

/// A failed interface read reaches the caller with exactly the errno that the
/// binding reported; every other failure of the binding is unexpected.
pub proof fn lemma_read_failure_keeps_errno(errno: i32, other: Error)
    requires
        !(other is IfaceRead),
    ensures
        read_outcome_spec(Err(Error::IfaceRead(errno))) == Err::<usize, ReadFault>(
            ReadFault::Os(errno),
        ),
        read_outcome_spec(Err(other)) == Err::<usize, ReadFault>(ReadFault::Unexpected(other)),
{
}

/// The IP version a raw packet declares in the high nibble of its first byte.
pub open spec fn ip_version(packet: Seq<u8>) -> int {
    if packet.len() == 0 {
        0
    } else {
        packet[0] as int / 16
    }
}

/// The IP version of a raw packet, 0 for an empty one.
pub fn packet_version(packet: &[u8]) -> (r: u8)
    ensures
        r as int == ip_version(packet@),
{
    if packet.len() == 0 {
        0
    } else {
        packet[0] / 16
    }
}

/// Exclusive handle on one tunnel interface.
pub struct TunSocket<T: TunBackend> {
    tun: T,
}

impl<T: TunBackend> TunSocket<T> {
    /// Opens the interface called `name` through the platform binding.
    pub fn new(name: &str) -> (r: Result<TunSocket<T>, Error>)
        ensures
            r is Ok ==> r->Ok_0.backend().name_spec() == name@,
            r is Err ==> (r->Err_0 is IfaceOpen || r->Err_0 is InvalidTunnelName),
    {
        match T::open(name) {
            Ok(tun) => Ok(TunSocket { tun }),
            Err(e) => Err(e),
        }
    }

    /// Wraps a binding that is already open.
    pub fn from_backend(tun: T) -> (r: TunSocket<T>)
        ensures
            r.backend() == tun,
    {
        TunSocket { tun }
    }

    pub closed spec fn backend(&self) -> T {
        self.tun
    }

    /// The interface name, queried from the OS on each call.
    pub fn name(&self) -> (r: Result<String, Error>)
        ensures
            r is Ok ==> r->Ok_0@ == self.backend().name_spec(),
            r is Err ==> r->Err_0 is IfaceQuery,
    {
        self.tun.name()
    }

    /// The current MTU, queried from the OS on each call.
    pub fn mtu(&self) -> (r: Result<usize, Error>)
        ensures
            r is Err ==> r->Err_0 is IfaceQuery,
    {
        self.tun.mtu()
    }

    /// Writes an IPv4 packet; a short count is a valid outcome.
    pub fn write4(&self, src: &[u8]) -> (r: usize)
        ensures
            r <= src@.len(),
    {
        self.tun.write4(src)
    }

    /// Writes an IPv6 packet; a short count is a valid outcome.
    pub fn write6(&self, src: &[u8]) -> (r: usize)
        ensures
            r <= src@.len(),
    {
        self.tun.write6(src)
    }

    /// A plain write goes out as an IPv4 packet.
    pub fn write(&mut self, buf: &[u8]) -> (r: usize)
        ensures
            r <= buf@.len(),
    {
        self.write4(buf)
    }

    /// Exactly one OS read into `buf`. A failed interface read comes back as
    /// `ReadFault::Os` with the errno of the binding.
    pub fn read(&mut self, buf: &mut [u8]) -> (r: Result<usize, ReadFault>)
        ensures
            final(buf)@.len() == old(buf)@.len(),
            r is Ok ==> r->Ok_0 <= old(buf)@.len(),
            exists|b: Result<usize, Error>| r == read_outcome_spec(b),
            r is Err && r->Err_0 is Unexpected ==> !(r->Err_0->Unexpected_0 is IfaceRead),
            final(self).backend().name_spec() == old(self).backend().name_spec(),
    {
        let b = self.tun.read(buf);
        read_outcome(b)
    }

    /// Sends one outbound packet by its declared IP version: IPv4 and IPv6
    /// packets are written, anything else is dropped (`None`).
    pub fn send_packet(&self, packet: &[u8]) -> (r: Option<usize>)
        ensures
            ip_version(packet@) == 4 || ip_version(packet@) == 6 <==> r is Some,
            r is Some ==> r->Some_0 <= packet@.len(),
    {
        let v = packet_version(packet);
        if v == 4 {
            Some(self.write4(packet))
        } else if v == 6 {
            Some(self.write6(packet))
        } else {
            None
        }
    }

    /// The descriptor that the readiness multiplexer registers.
    pub fn raw_fd(&self) -> (r: i32) {
        self.tun.raw_fd()
    }
}

} // verus!
