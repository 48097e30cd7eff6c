//! Backend nodes and the identifiers the backend hands out.

use vstd::prelude::*;
use vstd::utf8::encode_utf8;

verus! {

/// One backend node, reachable over a control port and a status port.
#[derive(Debug, Clone)]
pub struct NodeSocket {
    pub host: String,
    pub grpc_port: u16,
    pub http_port: u16,
}

/// Why three configured lists make no pool.
#[derive(Debug, Clone, Copy, PartialEq, Eq, Structural)]
pub enum PoolError {
    /// One of the lists holds nothing.
    Empty,
    /// The lists differ in length.
    LengthMismatch,
}

impl PoolError {
    pub open spec fn spec_message(&self) -> Seq<char> {
        match self {
            PoolError::Empty => "NODE_HOSTS, NODE_GRPC_PORTS, and NODE_HTTP_PORTS must be set and non-empty"@,
            PoolError::LengthMismatch => "NODE_HOSTS, NODE_GRPC_PORTS, and NODE_HTTP_PORTS must have the same length"@,
        }
    }

    /// The error in words.
    pub fn message(&self) -> (r: String)
        ensures
            r@ == self.spec_message(),
    {
        match self {
            PoolError::Empty => "NODE_HOSTS, NODE_GRPC_PORTS, and NODE_HTTP_PORTS must be set and non-empty".to_owned(),
            PoolError::LengthMismatch => "NODE_HOSTS, NODE_GRPC_PORTS, and NODE_HTTP_PORTS must have the same length".to_owned(),
        }
    }
}

/// An ASCII letter or digit.
pub open spec fn is_alphanumeric(b: u8) -> bool {
    (48 <= b <= 57) || (65 <= b <= 90) || (97 <= b <= 122)
}

/// A submission identifier in the shape the backend gives it: 100 to 160
/// bytes, each an ASCII letter or digit.
pub open spec fn is_deploy_id(bytes: Seq<u8>) -> bool {
    100 <= bytes.len() <= 160 && forall|i: int|
        0 <= i < bytes.len() ==> is_alphanumeric(#[trigger] bytes[i])
}

/// Whether a text has the shape of a submission identifier. Every byte of a
/// character outside ASCII lies above the letters and digits, so the test on
/// bytes is the test on characters.
pub fn validate_deploy_id(deploy_id: &str) -> (ok: bool)
    ensures
        ok == is_deploy_id(encode_utf8(deploy_id@)),
{
    let bytes = deploy_id.as_bytes();
    let len: usize = bytes.len();
    if len < 100 || len > 160 {
        return false;
    }
    let mut i: usize = 0;
    while i < len
        invariant
            i <= len,
            len == bytes@.len(),
            bytes@ == encode_utf8(deploy_id@),
            100 <= len <= 160,
            forall|j: int| 0 <= j < i ==> is_alphanumeric(#[trigger] bytes@[j]),
        decreases len - i,
    {
        let b: u8 = bytes[i];
        let digit = 48u8 <= b && b <= 57u8;
        let upper = 65u8 <= b && b <= 90u8;
        let lower = 97u8 <= b && b <= 122u8;
        if !(digit || upper || lower) {
            assert(!is_alphanumeric(bytes@[i as int]));
            return false;
        }
        i = i + 1;
    }
    true
}

/// The pool that three lists of equal length describe: node `i` has the
/// `i`-th host and the `i`-th of each port.
pub open spec fn is_pool_of(
    pool: Seq<NodeSocket>,
    hosts: Seq<String>,
    grpc_ports: Seq<u16>,
    http_ports: Seq<u16>,
) -> bool {
    &&& pool.len() == hosts.len()
    &&& forall|i: int|
        0 <= i < pool.len() ==> (#[trigger] pool[i]).host@ == hosts[i]@ && pool[i].grpc_port
            == grpc_ports[i] && pool[i].http_port == http_ports[i]
}

/// Builds the pool from the configured hosts and ports, in their order.
/// Refuses lists of which one is empty, then lists of different lengths.
pub fn build_pool(hosts: &Vec<String>, grpc_ports: &Vec<u16>, http_ports: &Vec<u16>) -> (r: Result<
    Vec<NodeSocket>,
    PoolError,
>)
    ensures
        (hosts@.len() == 0 || grpc_ports@.len() == 0 || http_ports@.len() == 0) ==> r == Err::<
            Vec<NodeSocket>,
            PoolError,
        >(PoolError::Empty),
        hosts@.len() > 0 && grpc_ports@.len() > 0 && http_ports@.len() > 0 && (hosts@.len()
            != grpc_ports@.len() || hosts@.len() != http_ports@.len()) ==> r == Err::<
            Vec<NodeSocket>,
            PoolError,
        >(PoolError::LengthMismatch),
        hosts@.len() > 0 && hosts@.len() == grpc_ports@.len() && hosts@.len() == http_ports@.len()
            ==> r is Ok && is_pool_of(r->Ok_0@, hosts@, grpc_ports@, http_ports@),
{
    if hosts.len() == 0 || grpc_ports.len() == 0 || http_ports.len() == 0 {
        return Err(PoolError::Empty);
    }
    if hosts.len() != grpc_ports.len() || hosts.len() != http_ports.len() {
        return Err(PoolError::LengthMismatch);
    }
    let mut pool: Vec<NodeSocket> = Vec::new();
    let mut i: usize = 0;
    while i < hosts.len()
        invariant
            i <= hosts@.len(),
            hosts@.len() == grpc_ports@.len(),
            hosts@.len() == http_ports@.len(),
            pool@.len() == i,
            forall|j: int|
                0 <= j < i ==> (#[trigger] pool@[j]).host@ == hosts@[j]@ && pool@[j].grpc_port
                    == grpc_ports@[j] && pool@[j].http_port == http_ports@[j],
        decreases hosts@.len() - i,
    {
        pool.push(
            NodeSocket {
                host: hosts[i].clone(),
                grpc_port: grpc_ports[i],
                http_port: http_ports[i],
            },
        );
        i = i + 1;
    }
    Ok(pool)
}

} // verus!
