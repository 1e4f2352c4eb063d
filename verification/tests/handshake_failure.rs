use exec_uproc::netproxy::netproxy_handshake;
use exec_uproc::SandboxError;

const SOCK_DIR: &str = "/tmp/spproxyd";
const MISSING_SOCK: &str = "/tmp/spproxyd/spproxyd-netproxy.sock";

#[test]
fn handshake_fails_when_the_control_socket_does_not_exist() {
    let _ = nix::unistd::mkdir(SOCK_DIR, nix::sys::stat::Mode::from_bits_truncate(0o755));
    let _ = nix::unistd::unlink(MISSING_SOCK);
    let r = netproxy_handshake("alice");
    assert_eq!(r, Err(SandboxError::ProxyHandshake));
}
