//! `serve --workers N`: the worker processes' ports and arguments, the
//! round-robin choice of a worker for each connection, and how a
//! connection's first bytes decide its forwarding.

use vstd::prelude::*;
use crate::text::{decimal, decimal_string};

verus! {

/// The port of the `i`-th worker (counting from 0) behind `port`.
pub open spec fn worker_port(port: u16, i: int) -> int {
    port + 1 + i
}

/// The ports of the `workers` worker processes: `port + 1`, `port + 2`, ...
pub fn worker_ports(port: u16, workers: u16) -> (r: Vec<u16>)
    requires
        port + workers <= u16::MAX,
    ensures
        r.len() == workers,
        forall|i: int| 0 <= i < workers ==> r[i] == worker_port(port, i),
{
    let mut r: Vec<u16> = Vec::new();
    let mut i: u16 = 0;
    while i < workers
        invariant
            i <= workers,
            port + workers <= u16::MAX,
            r.len() == i,
            forall|k: int| 0 <= k < i ==> r[k] == worker_port(port, k),
        decreases workers - i,
    {
        r.push(port + 1 + i);
        i = i + 1;
    }
    r
}

/// The arguments a worker process is started with.
pub open spec fn worker_args(worker_port: u16, proxy: Option<Seq<char>>, stealth: bool) -> Seq<Seq<char>> {
    seq!["serve"@, "--port"@, decimal(worker_port as nat)] + match proxy {
        Some(p) => seq!["--proxy"@, p],
        None => Seq::empty(),
    } + if stealth {
        seq!["--stealth"@]
    } else {
        Seq::empty()
    }
}

/// The arguments to start the worker on `worker_port` with.
pub fn worker_command_args(worker_port: u16, proxy: Option<&str>, stealth: bool) -> (r: Vec<String>)
    ensures
        r@.map_values(|s: String| s@) == worker_args(
            worker_port,
            match proxy {
                Some(p) => Some(p@),
                None => None,
            },
            stealth,
        ),
{
    let mut r: Vec<String> = Vec::new();
    r.push("serve".to_owned());
    r.push("--port".to_owned());
    r.push(decimal_string(worker_port as u64));
    match proxy {
        Some(p) => {
            r.push("--proxy".to_owned());
            r.push(p.to_owned());
        },
        None => {},
    }
    if stealth {
        r.push("--stealth".to_owned());
    }
    assert(r@.map_values(|s: String| s@) =~= worker_args(
        worker_port,
        match proxy {
            Some(p) => Some(p@),
            None => None,
        },
        stealth,
    ));
    r
}

/// Hands connections to the workers in turn.
pub struct RoundRobin {
    /// The load balancer's own port.
    pub port: u16,
    /// How many workers there are.
    pub workers: u16,
    /// The count of connections routed so far, modulo 2^16.
    pub next: u16,
}

impl RoundRobin {
    /// The router's well-formedness: there is a worker, and every worker
    /// port fits in a `u16`.
    pub open spec fn wf(&self) -> bool {
        0 < self.workers && self.port + self.workers <= u16::MAX
    }

    /// A router that starts with the first worker.
    pub fn new(port: u16, workers: u16) -> (r: RoundRobin)
        requires
            0 < workers,
            port + workers <= u16::MAX,
        ensures
            r.wf(),
            r.port == port,
            r.workers == workers,
            r.next == 0,
    {
        RoundRobin { port, workers, next: 0 }
    }

    /// The port of the worker for the next connection; the count moves on
    /// by one, wrapping at 2^16.
    pub fn route(&mut self) -> (r: u16)
        requires
            old(self).wf(),
        ensures
            final(self).wf(),
            final(self).port == old(self).port,
            final(self).workers == old(self).workers,
            r == worker_port(old(self).port, (old(self).next % old(self).workers) as int),
            final(self).next == (old(self).next + 1) % 0x10000,
    {
        let r = self.port + 1 + self.next % self.workers;
        self.next = self.next.wrapping_add(1);
        r
    }
}

/// Every connection goes to one of the workers.
pub proof fn law_routes_stay_within_workers(r: RoundRobin)
    requires
        r.wf(),
    ensures
        r.port + 1 <= worker_port(r.port, (r.next % r.workers) as int) <= r.port + r.workers,
{
}

/// Connections go to the workers in turn: `workers` connections in a row,
/// while the count does not wrap, reach `workers` different workers.
pub proof fn law_round_robin_is_fair(port: u16, workers: u16, next: int, j: int, k: int)
    requires
        0 < workers,
        0 <= next,
        0 <= j < k < workers,
    ensures
        worker_port(port, (next + j) % (workers as int)) != worker_port(port, (next + k) % (workers as int)),
{
    let w = workers as int;
    assert((next + j) % w != (next + k) % w) by (nonlinear_arith)
        requires
            0 < w,
            0 <= next,
            0 <= j < k < w,
    {
        if (next + j) % w == (next + k) % w {
            assert((next + k) - (next + j) == ((next + k) / w - (next + j) / w) * w);
        }
    }
}

/// The worker arguments are `serve --port <port>`, then `--proxy <p>`
/// whenever a proxy `p` is given, then `--stealth` exactly when stealth is
/// set; proxy and stealth do not depend on each other.
pub proof fn law_worker_args_shape(worker_port: u16, proxy: Option<Seq<char>>, stealth: bool)
    ensures
        ({
            let args = worker_args(worker_port, proxy, stealth);
            &&& args.len() == 3 + (if proxy is Some { 2int } else { 0int }) + (if stealth { 1int } else { 0int })
            &&& args[0] == "serve"@
            &&& args[1] == "--port"@
            &&& args[2] == decimal(worker_port as nat)
            &&& proxy matches Some(p) ==> args[3] == "--proxy"@ && args[4] == p
            &&& stealth ==> args.last() == "--stealth"@
            &&& !stealth ==> args.last() != "--stealth"@ || proxy == Some("--stealth"@)
        }),
{
    let args = worker_args(worker_port, proxy, stealth);
    if !stealth && proxy is None {
        reveal_strlit("--stealth");
        crate::text::lemma_decimal_roundtrip(worker_port as nat);
        assert("--stealth"@[0] == '-');
        assert(args.last() == decimal(worker_port as nat));
    }
}

/// Whether a connection's first four bytes are `GET `.
pub open spec fn starts_as_get(first: Seq<u8>) -> bool {
    first == seq![71u8, 69u8, 84u8, 32u8]
}

/// The `len` bytes of `s` from `at`.
pub open spec fn window(s: Seq<u8>, at: int, len: int) -> Seq<u8> {
    s.subrange(at, at + len)
}

/// Whether `hay` holds the bytes `needle` somewhere.
pub open spec fn contains_bytes(hay: Seq<u8>, needle: Seq<u8>) -> bool {
    exists|i: int| 0 <= i && i + needle.len() <= hay.len() && #[trigger] window(hay, i, needle.len() as int) == needle
}

/// The bytes of `/json`.
pub open spec fn json_path() -> Seq<u8> {
    seq![47u8, 106u8, 115u8, 111u8, 110u8]
}

/// Whether a connection that starts with `first` (the four bytes that the
/// first peek filled, zeros where it read less) is a `GET` request whose
/// first peeked bytes are then to be looked at.
pub fn is_get_request(first: &[u8; 4]) -> (r: bool)
    ensures
        r == starts_as_get(first@),
{
    let r = first[0] == 71 && first[1] == 69 && first[2] == 84 && first[3] == 32;
    assert(r ==> first@ =~= seq![71u8, 69u8, 84u8, 32u8]);
    r
}

/// Whether the peeked start of a `GET` request asks for a `/json` path.
/// Looking for the bytes of `/json` finds it exactly where a lossy UTF-8
/// decoding of them holds it: its bytes are ASCII, which are never part
/// of a replaced or multi-byte sequence.
pub fn mentions_json(peeked: &[u8]) -> (r: bool)
    ensures
        r == contains_bytes(peeked@, json_path()),
{
    let n = peeked.len();
    if n < 5 {
        return false;
    }
    let mut i: usize = 0;
    while i <= n - 5
        invariant
            n == peeked@.len(),
            5 <= n,
            i <= n - 4,
            forall|k: int| 0 <= k < i ==> #[trigger] window(peeked@, k, 5) != json_path(),
        decreases n - i,
    {
        if peeked[i] == 47 && peeked[i + 1] == 106 && peeked[i + 2] == 115 && peeked[i + 3] == 111
            && peeked[i + 4] == 110 {
            assert(window(peeked@, i as int, 5) =~= json_path());
            return true;
        }
        assert(peeked@.subrange(i as int, i + 5)[0] == peeked@[i as int]);
        assert(peeked@.subrange(i as int, i + 5)[1] == peeked@[i + 1]);
        assert(peeked@.subrange(i as int, i + 5)[2] == peeked@[i + 2]);
        assert(peeked@.subrange(i as int, i + 5)[3] == peeked@[i + 3]);
        assert(peeked@.subrange(i as int, i + 5)[4] == peeked@[i + 4]);
        assert(window(peeked@, i as int, 5) != json_path());
        i = i + 1;
    }
    assert(!contains_bytes(peeked@, json_path())) by {
        if contains_bytes(peeked@, json_path()) {
            let k = choose|k: int| 0 <= k && k + 5 <= n && #[trigger] window(peeked@, k, 5) == json_path();
            assert(k < i);
        }
    }
    false
}

} // verus!
