use sstun::device::{read_outcome, Error, ReadFault, TunBackend, TunSocket};
use sstun::memory_tun::{MemoryTun, DEFAULT_MTU, WOULD_BLOCK};

fn device(mtu: usize) -> TunSocket<MemoryTun> {
    TunSocket::from_backend(MemoryTun::with_mtu("utun7", mtu))
}

#[test]
fn open_by_name_reports_name_and_mtu() {
    let dev: TunSocket<MemoryTun> = TunSocket::new("utun3").unwrap();
    assert_eq!(dev.name().unwrap(), "utun3");
    assert_eq!(dev.mtu().unwrap(), DEFAULT_MTU);
}

#[test]
fn open_with_empty_name_fails() {
    let r: Result<TunSocket<MemoryTun>, Error> = TunSocket::new("");
    assert!(matches!(r, Err(Error::InvalidTunnelName)));
}

#[test]
fn writes_within_mtu_are_accepted_whole() {
    let dev = device(1500);
    let v4 = vec![0x45u8; 60];
    let v6 = vec![0x60u8; 1500];
    assert_eq!(dev.write4(&v4), 60);
    assert_eq!(dev.write6(&v6), 1500);
    assert_eq!(dev.write4(&[]), 0);
}

#[test]
fn writes_over_mtu_are_short() {
    let dev = device(100);
    let big = vec![0x45u8; 300];
    let n = dev.write4(&big);
    assert_eq!(n, 100);
    assert!(n <= big.len());
}

#[test]
fn plain_write_goes_out_as_ipv4() {
    let mut dev = device(1500);
    assert_eq!(dev.write(&[1, 2, 3]), 3);
}

#[test]
fn mtu_is_queried_live() {
    let mut tun = MemoryTun::with_mtu("utun1", 1500);
    tun.set_mtu(1280);
    let dev = TunSocket::from_backend(tun);
    assert_eq!(dev.mtu().unwrap(), 1280);
}

#[test]
fn read_failure_keeps_errno() {
    let mut tun = MemoryTun::with_mtu("utun1", 1500);
    tun.fail_next_read(35);
    let mut dev = TunSocket::from_backend(tun);
    let mut buf = [0u8; 16];
    assert_eq!(dev.read(&mut buf), Err(ReadFault::Os(35)));
    assert_eq!(dev.read(&mut buf), Err(ReadFault::Os(WOULD_BLOCK)));
}

#[test]
fn read_copies_next_packet() {
    let mut tun = MemoryTun::with_mtu("utun1", 1500);
    tun.push_inbound(vec![0x45, 1, 2, 3]);
    tun.push_inbound(vec![0x60, 9]);
    let mut dev = TunSocket::from_backend(tun);
    let mut buf = [0u8; 8];
    assert_eq!(dev.read(&mut buf), Ok(4));
    assert_eq!(&buf[..4], &[0x45, 1, 2, 3]);
    assert_eq!(dev.read(&mut buf), Ok(2));
    assert_eq!(&buf[..2], &[0x60, 9]);
}

#[test]
fn read_cuts_packet_to_buffer() {
    let mut tun = MemoryTun::with_mtu("utun1", 1500);
    tun.push_inbound(vec![1, 2, 3, 4, 5]);
    let mut buf = [0u8; 3];
    assert_eq!(tun.read(&mut buf), Ok(3));
    assert_eq!(buf, [1, 2, 3]);
}

#[test]
fn read_outcome_maps_each_case() {
    assert_eq!(read_outcome(Ok(7)), Ok(7));
    assert_eq!(read_outcome(Err(Error::IfaceRead(4))), Err(ReadFault::Os(4)));
    assert_eq!(
        read_outcome(Err(Error::IfaceQuery(1))),
        Err(ReadFault::Unexpected(Error::IfaceQuery(1)))
    );
    assert_eq!(
        read_outcome(Err(Error::IfaceOpen(13))),
        Err(ReadFault::Unexpected(Error::IfaceOpen(13)))
    );
}

#[test]
fn send_packet_routes_by_version() {
    let dev = device(1500);
    assert_eq!(dev.send_packet(&[0x45, 0, 0, 20]), Some(4));
    assert_eq!(dev.send_packet(&[0x60, 0]), Some(2));
    assert_eq!(dev.send_packet(&[0x10, 0]), None);
    assert_eq!(dev.send_packet(&[]), None);
}

#[test]
fn open_binds_requested_name() {
    let dev: TunSocket<MemoryTun> = TunSocket::new("utun9").unwrap();
    assert_eq!(dev.name(), Ok("utun9".to_string()));
    assert_eq!(dev.mtu(), Ok(DEFAULT_MTU));
}
