use exec_uproc::netproxy::netproxy_handshake;
use nix::sys::socket::{accept, bind, listen, socket, AddressFamily, SockFlag, SockType, UnixAddr};

const SOCK_DIR: &str = "/tmp/spproxyd";
const SOCK_PATH: &str = "/tmp/spproxyd/spproxyd-netproxy.sock";

#[test]
fn handshake_sends_the_principal_frame_and_keeps_the_descriptor_open() {
    let _ = nix::unistd::mkdir(SOCK_DIR, nix::sys::stat::Mode::from_bits_truncate(0o755));
    let _ = nix::unistd::unlink(SOCK_PATH);
    let srv = socket(AddressFamily::Unix, SockType::Stream, SockFlag::empty(), None).unwrap();
    let addr = UnixAddr::new(SOCK_PATH).unwrap();
    bind(srv, &addr).unwrap();
    listen(srv, 8).unwrap();

    let fd = netproxy_handshake("alice").expect("daemon is listening, handshake must succeed");
    assert!(fd >= 0);

    let conn = accept(srv).unwrap();
    let mut buf = [0u8; 64];
    let mut got = Vec::new();
    while got.len() < 9 {
        let n = nix::unistd::read(conn, &mut buf).unwrap();
        assert!(n > 0, "frame ended early");
        got.extend_from_slice(&buf[..n]);
    }
    assert_eq!(got, vec![0x09, 0, 0, 0, b'a', b'l', b'i', b'c', b'e']);

    let flags = nix::fcntl::fcntl(fd, nix::fcntl::FcntlArg::F_GETFD).unwrap();
    let flags = nix::fcntl::FdFlag::from_bits_truncate(flags);
    assert!(
        !flags.contains(nix::fcntl::FdFlag::FD_CLOEXEC),
        "close-on-exec must be cleared so the descriptor survives the exec"
    );

    let _ = nix::unistd::close(conn);
    let _ = nix::unistd::close(fd);
    let _ = nix::unistd::close(srv);
    let _ = nix::unistd::unlink(SOCK_PATH);
}
