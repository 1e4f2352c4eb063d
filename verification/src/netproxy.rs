//! Wire handshake with the node-local network-proxy daemon.
//!
//! The handshake is a single length-prefixed frame, sent once, with no reply:
//! a 4-byte little-endian length field holding `byte-length(principal) + 4`,
//! followed by the raw UTF-8 bytes of the principal identity.

use vstd::prelude::*;
use vstd::slice::slice_subrange;
use vstd::string::*;

use crate::SandboxError;

verus! {

/// The little-endian byte encoding of a 32-bit value.
pub open spec fn le32_bytes(n: u32) -> Seq<u8> {
    seq![
        (n & 0xff) as u8,
        ((n >> 8) & 0xff) as u8,
        ((n >> 16) & 0xff) as u8,
        ((n >> 24) & 0xff) as u8,
    ]
}

/// The 32-bit value encoded by four little-endian bytes.
pub open spec fn le32_value(b: Seq<u8>) -> u32
    recommends
        b.len() == 4,
{
    ((b[0] as u32) | ((b[1] as u32) << 8) | ((b[2] as u32) << 16) | ((b[3] as u32) << 24)) as u32
}

/// The handshake frame for a payload: the length field counts the payload
/// bytes plus the four bytes of the length field itself.
pub open spec fn frame_bytes(payload: Seq<u8>) -> Seq<u8>
    recommends
        payload.len() + 4 <= u32::MAX,
{
    le32_bytes((payload.len() + 4) as u32) + payload
}

/// What a frame receiver recovers: the payload, provided the length field
/// matches the frame's total length.
pub open spec fn parse_frame(bytes: Seq<u8>) -> Option<Seq<u8>> {
    if bytes.len() >= 4 && le32_value(bytes.subrange(0, 4)) == bytes.len() {
        Some(bytes.skip(4))
    } else {
        None
    }
}

proof fn lemma_le32_round_trip(n: u32)
    ensures
        le32_value(le32_bytes(n)) == n,
{
    let b = le32_bytes(n);
    assert(((((n & 0xff) as u8) as u32) | ((((n >> 8) & 0xff) as u8) as u32) << 8 | ((((n >> 16)
        & 0xff) as u8) as u32) << 16 | ((((n >> 24) & 0xff) as u8) as u32) << 24) == n)
        by (bit_vector);
}

/// Round trip of the proxy frame: a receiver that checks the length field
/// against the frame's total length recovers exactly the sent payload.
pub proof fn lemma_frame_round_trip(payload: Seq<u8>)
    requires
        payload.len() + 4 <= u32::MAX,
    ensures
        parse_frame(frame_bytes(payload)) == Some(payload),
{
    let n = (payload.len() + 4) as u32;
    let f = frame_bytes(payload);
    assert(f.len() == payload.len() + 4);
    assert(f.subrange(0, 4) =~= le32_bytes(n));
    lemma_le32_round_trip(n);
    assert(f.skip(4) =~= payload);
}

/// Build the single handshake frame for a principal identity.
pub fn encode_frame(principal: &str) -> (r: Vec<u8>)
    requires
        principal.spec_bytes().len() + 4 <= i32::MAX,
    ensures
        r@ == frame_bytes(principal.spec_bytes()),
        r@.len() == principal.spec_bytes().len() + 4,
{
    let payload: Vec<u8> = principal.as_bytes_vec();
    let n: u32 = (payload.len() + 4) as u32;
    let mut r: Vec<u8> = Vec::new();
    proof {
        assert(n & 0xff < 256 && (n >> 8) & 0xff < 256 && (n >> 16) & 0xff < 256 && (n >> 24)
            & 0xff < 256) by (bit_vector);
    }
    r.push((n & 0xff) as u8);
    r.push(((n >> 8) & 0xff) as u8);
    r.push(((n >> 16) & 0xff) as u8);
    r.push(((n >> 24) & 0xff) as u8);
    assert(r@ =~= le32_bytes(n));
    let mut i: usize = 0;
    while i < payload.len()
        invariant
            i <= payload@.len(),
            payload@ == principal.spec_bytes(),
            r@ == le32_bytes(n) + payload@.subrange(0, i as int),
        decreases payload@.len() - i,
    {
        r.push(payload[i]);
        assert(r@ =~= le32_bytes(n) + payload@.subrange(0, i + 1 as int));
        i = i + 1;
    }
    assert(payload@.subrange(0, payload@.len() as int) =~= payload@);
    assert(r@ =~= frame_bytes(principal.spec_bytes()));
    r
}

/// The fixed control-socket path of the network-proxy daemon, reachable
/// from the new root because its directory is bind-mounted into the jail.
pub fn netproxy_socket_path() -> (r: String)
    ensures
        r@ == "/tmp/spproxyd/spproxyd-netproxy.sock"@,
{
    String::from_str("/tmp/spproxyd/spproxyd-netproxy.sock")
}

/// Relies on nix::sys::socket::socket (socket(2)) with AF_UNIX and
/// SOCK_STREAM: a new stream socket; on success the descriptor is
/// nonnegative.
#[verifier::external_body]
fn sys_unix_socket() -> (r: Result<i32, ()>)
    ensures
        r is Ok ==> r->Ok_0 >= 0,
{
    nix::sys::socket::socket(
        nix::sys::socket::AddressFamily::Unix,
        nix::sys::socket::SockType::Stream,
        nix::sys::socket::SockFlag::empty(),
        None,
    ).map_err(|_| ())
}

/// Relies on nix::sys::socket::connect (connect(2)), with the address built
/// by nix::sys::socket::UnixAddr::new from the path.
#[verifier::external_body]
fn sys_unix_connect(fd: i32, path: &String) -> (r: Result<(), ()>) {
    let addr = match nix::sys::socket::UnixAddr::new(path.as_str()) {
        Ok(a) => a,
        Err(_) => {
            return Err(());
        },
    };
    nix::sys::socket::connect(fd, &addr).map_err(|_| ())
}

/// Relies on nix::unistd::write (write(2)): on success, the number of bytes
/// written, which is at most the length of what was offered.
#[verifier::external_body]
fn sys_write(fd: i32, buf: &[u8]) -> (r: Result<usize, ()>)
    ensures
        r is Ok ==> r->Ok_0 <= buf@.len(),
{
    nix::unistd::write(fd, buf).map_err(|_| ())
}

/// Relies on nix::fcntl::fcntl (fcntl(2)) F_SETFD with empty flags: clear
/// the close-on-exec flag, so the descriptor survives the coming image
/// replacement.
#[verifier::external_body]
fn sys_clear_cloexec(fd: i32) -> (r: Result<(), ()>) {
    nix::fcntl::fcntl(fd, nix::fcntl::FcntlArg::F_SETFD(nix::fcntl::FdFlag::empty()))
        .map(|_| ())
        .map_err(|_| ())
}

/// Write a buffer in full, continuing after short writes; a failed write or
/// one that makes no progress is an error, because the handshake admits no
/// partial frame.
fn write_all(fd: i32, buf: &Vec<u8>) -> (r: Result<(), ()>) {
    let mut written: usize = 0;
    while written < buf.len()
        invariant
            written <= buf@.len(),
        decreases buf@.len() - written,
    {
        let chunk: &[u8] = slice_subrange(buf.as_slice(), written, buf.len());
        match sys_write(fd, chunk) {
            Ok(n) => {
                if n == 0 {
                    return Err(());
                }
                written = written + n;
            },
            Err(_) => {
                return Err(());
            },
        }
    }
    Ok(())
}

/// Acquire the authorized proxy descriptor: connect to the daemon's fixed
/// control socket, send the single handshake frame asserting the principal
/// identity, and clear close-on-exec so the descriptor survives the image
/// replacement.  Only invoked when network-proxy mode is enabled; any
/// connect or write failure is fatal to the launch.  On success the
/// descriptor is nonnegative and its number can be published to the child.
pub fn netproxy_handshake(principal: &str) -> (r: Result<i32, SandboxError>)
    requires
        principal.spec_bytes().len() + 4 <= i32::MAX,
    ensures
        r is Ok ==> r->Ok_0 >= 0,
        r is Err ==> r->Err_0 == SandboxError::ProxyHandshake,
{
    let frame = encode_frame(principal);
    let path = netproxy_socket_path();
    let fd = match sys_unix_socket() {
        Ok(fd) => fd,
        Err(_) => {
            return Err(SandboxError::ProxyHandshake);
        },
    };
    if sys_unix_connect(fd, &path).is_err() {
        return Err(SandboxError::ProxyHandshake);
    }
    if write_all(fd, &frame).is_err() {
        return Err(SandboxError::ProxyHandshake);
    }
    if sys_clear_cloexec(fd).is_err() {
        return Err(SandboxError::ProxyHandshake);
    }
    Ok(fd)
}

} // verus!
