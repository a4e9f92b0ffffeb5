use vstd::prelude::*;

use crate::device::{Error, TunBackend};

verus! {

/// MTU of an interface opened by name on the in-memory binding.
pub const DEFAULT_MTU: usize = 1500;

/// Errno that an in-memory read reports when no packet is queued ("would block").
pub const WOULD_BLOCK: i32 = 11;

/// A tunnel interface held in memory: packets queued for reading, a failure
/// that the next read reports, and a fixed MTU that bounds each write.
pub struct MemoryTun {
    name: String,
    mtu: usize,
    inbound: Vec<Vec<u8>>,
    failure: Option<i32>,
}

/// Bytes that a device with this MTU accepts of a packet of `len` bytes.
pub open spec fn accepted_len(len: nat, mtu: nat) -> nat {
    if len <= mtu {
        len
    } else {
        mtu
    }
}

impl MemoryTun {
    /// A device called `name` with the given MTU and nothing queued.
    pub fn with_mtu(name: &str, mtu: usize) -> (r: MemoryTun)
        ensures
            r.name_view() == name@,
            r.mtu_view() == mtu,
            r.inbound_view() == Seq::<Seq<u8>>::empty(),
            r.failure_view() == None::<i32>,
    {
        MemoryTun { name: name.to_owned(), mtu, inbound: Vec::new(), failure: None }
    }

    pub closed spec fn name_view(&self) -> Seq<char> {
        self.name@
    }

    pub closed spec fn mtu_view(&self) -> nat {
        self.mtu as nat
    }

    /// Packets waiting to be read, next one first.
    pub closed spec fn inbound_view(&self) -> Seq<Seq<u8>> {
        self.inbound@.map_values(|p: Vec<u8>| p@)
    }

    pub closed spec fn failure_view(&self) -> Option<i32> {
        self.failure
    }

    /// Queues a packet for a later read.
    pub fn push_inbound(&mut self, packet: Vec<u8>)
        ensures
            final(self).inbound_view() == old(self).inbound_view().push(packet@),
            final(self).name_view() == old(self).name_view(),
            final(self).mtu_view() == old(self).mtu_view(),
            final(self).failure_view() == old(self).failure_view(),
    {
        self.inbound.push(packet);
        proof {
            assert(final(self).inbound_view() =~= old(self).inbound_view().push(packet@));
        }
    }

    /// Makes the next read fail with `errno`.
    pub fn fail_next_read(&mut self, errno: i32)
        ensures
            final(self).failure_view() == Some(errno),
            final(self).inbound_view() == old(self).inbound_view(),
            final(self).name_view() == old(self).name_view(),
            final(self).mtu_view() == old(self).mtu_view(),
    {
        self.failure = Some(errno);
    }

    /// Changes the MTU, as an outside reconfiguration would.
    pub fn set_mtu(&mut self, mtu: usize)
        ensures
            final(self).mtu_view() == mtu,
            final(self).inbound_view() == old(self).inbound_view(),
            final(self).name_view() == old(self).name_view(),
            final(self).failure_view() == old(self).failure_view(),
    {
        self.mtu = mtu;
    }

    /// One read: a pending failure is reported (once) with its errno; with
    /// nothing queued the read would block; else the next packet is copied
    /// into `buf`, cut to its length.
    pub fn read_packet(&mut self, buf: &mut [u8]) -> (r: Result<usize, Error>)
        ensures
            final(buf)@.len() == old(buf)@.len(),
            final(self).name_view() == old(self).name_view(),
            final(self).mtu_view() == old(self).mtu_view(),
            final(self).failure_view() == None::<i32>,
            old(self).failure_view() is Some ==> {
                &&& r == Err::<usize, Error>(Error::IfaceRead(old(self).failure_view()->Some_0))
                &&& final(self).inbound_view() == old(self).inbound_view()
            },
            old(self).failure_view() is None && old(self).inbound_view().len() == 0 ==> {
                &&& r == Err::<usize, Error>(Error::IfaceRead(WOULD_BLOCK))
                &&& final(self).inbound_view() == old(self).inbound_view()
            },
            old(self).failure_view() is None && old(self).inbound_view().len() > 0 ==> {
                let p = old(self).inbound_view()[0];
                let n = accepted_len(p.len(), old(buf)@.len());
                &&& r == Ok::<usize, Error>(n as usize)
                &&& final(buf)@.subrange(0, n as int) == p.subrange(0, n as int)
                &&& final(buf)@.subrange(n as int, old(buf)@.len() as int)
                    == old(buf)@.subrange(n as int, old(buf)@.len() as int)
                &&& final(self).inbound_view() == old(self).inbound_view().drop_first()
            },
    {
        if let Some(errno) = self.failure {
            self.failure = None;
            return Err(Error::IfaceRead(errno));
        }
        if self.inbound.len() == 0 {
            return Err(Error::IfaceRead(WOULD_BLOCK));
        }
        let packet = self.inbound.remove(0);
        proof {
            assert(self.inbound_view() =~= old(self).inbound_view().drop_first());
        }
        let n: usize = if packet.len() <= buf.len() {
            packet.len()
        } else {
            buf.len()
        };
        let ghost start = buf@;
        let mut i: usize = 0;
        while i < n
            invariant
                n <= packet@.len(),
                n <= start.len(),
                buf@.len() == start.len(),
                i <= n,
                forall|j: int| 0 <= j < i ==> buf@[j] == packet@[j],
                forall|j: int| n <= j < start.len() ==> buf@[j] == start[j],
            decreases n - i,
        {
            buf[i] = packet[i];
            i = i + 1;
        }
        assert(buf@.subrange(0, n as int) =~= packet@.subrange(0, n as int));
        assert(buf@.subrange(n as int, start.len() as int) =~= start.subrange(n as int, start.len() as int));
        Ok(n)
    }

    fn accept(&self, src: &[u8]) -> (r: usize)
        ensures
            r == accepted_len(src@.len(), self.mtu_view()),
    {
        if src.len() <= self.mtu {
            src.len()
        } else {
            self.mtu
        }
    }
}

impl TunBackend for MemoryTun {
    open spec fn name_spec(&self) -> Seq<char> {
        self.name_view()
    }

    fn open(name: &str) -> (r: Result<MemoryTun, Error>) {
        if name.is_empty() {
            Err(Error::InvalidTunnelName)
        } else {
            Ok(MemoryTun::with_mtu(name, DEFAULT_MTU))
        }
    }

    fn name(&self) -> (r: Result<String, Error>) {
        Ok(self.name.clone())
    }

    fn mtu(&self) -> (r: Result<usize, Error>) {
        Ok(self.mtu)
    }

    fn write4(&self, src: &[u8]) -> (r: usize) {
        self.accept(src)
    }

    fn write6(&self, src: &[u8]) -> (r: usize) {
        self.accept(src)
    }

    fn read(&mut self, buf: &mut [u8]) -> (r: Result<usize, Error>) {
        self.read_packet(buf)
    }

    /// A memory device has no OS descriptor.
    fn raw_fd(&self) -> (r: i32) {
        -1
    }
}

} // verus!
