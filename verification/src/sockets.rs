//! Normalising discovered sockets and ordering them for display: listening TCP ports first,
//! then established TCP connections, then UDP, then the rest; within each group by port and
//! address. Discovery itself asks the operating system and runs outside.

use vstd::prelude::*;

use crate::model::{SocketProtocol, SocketSnapshot};
use crate::sort::{sort_stable, stable_sorted, SortKey};
use crate::text::{
    ascii_uppercase, eq_ignore_ascii_case, lemma_text_le_total, lemma_text_le_transitive,
    same_ignoring_ascii_case, same_text, string_of, text_at_most, text_le, to_ascii_uppercase,
};

verus! {

/// The display group of a socket: 0 for listening TCP, 1 for established TCP, 2 for UDP,
/// 3 for anything else.
pub open spec fn priority_of(s: SocketSnapshot) -> u8 {
    match s.protocol {
        SocketProtocol::Tcp => if s.state@ == "LISTEN"@ {
            0
        } else if s.state@ == "ESTABLISHED"@ {
            1
        } else {
            3
        },
        SocketProtocol::Udp => 2,
    }
}

/// The display group of a socket.
pub fn socket_priority(socket: &SocketSnapshot) -> (r: u8)
    ensures
        r == priority_of(*socket),
{
    match socket.protocol {
        SocketProtocol::Tcp => if same_text(socket.state.as_str(), "LISTEN") {
            0
        } else if same_text(socket.state.as_str(), "ESTABLISHED") {
            1
        } else {
            3
        },
        SocketProtocol::Udp => 2,
    }
}

impl SortKey for SocketSnapshot {
    open spec fn goes_before(a: SocketSnapshot, b: SocketSnapshot) -> bool {
        ||| priority_of(a) < priority_of(b)
        ||| priority_of(a) == priority_of(b) && a.local_port < b.local_port
        ||| priority_of(a) == priority_of(b) && a.local_port == b.local_port && text_le(
            a.local_address@,
            b.local_address@,
        )
    }

    proof fn goes_before_total(a: SocketSnapshot, b: SocketSnapshot) {
        lemma_text_le_total(a.local_address@, b.local_address@);
    }

    proof fn goes_before_transitive(a: SocketSnapshot, b: SocketSnapshot, c: SocketSnapshot) {
        if priority_of(a) == priority_of(b) && priority_of(b) == priority_of(c) && a.local_port
            == b.local_port && b.local_port == c.local_port {
            lemma_text_le_transitive(a.local_address@, b.local_address@, c.local_address@);
        }
    }

    fn sorts_before(&self, other: &SocketSnapshot) -> (r: bool) {
        let a = socket_priority(self);
        let b = socket_priority(other);
        if a != b {
            a < b
        } else if self.local_port != other.local_port {
            self.local_port < other.local_port
        } else {
            text_at_most(self.local_address.as_str(), other.local_address.as_str())
        }
    }
}

/// The sockets in display order (equal keys keep their order).
pub fn order_sockets(sockets: Vec<SocketSnapshot>) -> (r: Vec<SocketSnapshot>)
    ensures
        r@ == stable_sorted(sockets@),
{
    sort_stable(sockets)
}

/// The socket record for one discovered listener: TCP when the protocol reads `tcp` in any
/// ASCII case, else UDP; the state in ASCII upper case; no remote end; the one owning process.
pub fn listener_socket(
    protocol: &str,
    address: String,
    port: u16,
    state: &str,
    pid: u32,
    process_name: String,
) -> (r: SocketSnapshot)
    ensures
        r.protocol == (if same_ignoring_ascii_case(protocol@, "tcp"@) {
            SocketProtocol::Tcp
        } else {
            SocketProtocol::Udp
        }),
        r.local_address == address,
        r.local_port == port,
        r.remote_address is None,
        r.remote_port is None,
        r.state@ == ascii_uppercase(state@),
        r.associated_pids@ == seq![pid],
        r.process_names@ == seq![process_name],
{
    let upper = to_ascii_uppercase(state);
    let mut pids: Vec<u32> = Vec::new();
    pids.push(pid);
    let mut names: Vec<String> = Vec::new();
    names.push(process_name);
    SocketSnapshot {
        protocol: if eq_ignore_ascii_case(protocol, "tcp") {
            SocketProtocol::Tcp
        } else {
            SocketProtocol::Udp
        },
        local_address: address,
        local_port: port,
        remote_address: None,
        remote_port: None,
        state: string_of(&upper),
        associated_pids: pids,
        process_names: names,
    }
}

/// Law: listening TCP sockets come before every other socket in the ordered list, and the
/// list holds exactly the discovered sockets.
pub proof fn listening_ports_come_first(sockets: Seq<SocketSnapshot>)
    ensures
        forall|i: int, j: int|
            0 <= i < j < sockets.len() ==> priority_of(#[trigger] stable_sorted(sockets)[i])
                <= priority_of(#[trigger] stable_sorted(sockets)[j]),
        stable_sorted(sockets).to_multiset() == sockets.to_multiset(),
{
    crate::sort::stable_sort_orders_and_permutes(sockets);
}

/// Whether a socket is a TCP socket in the given state.
pub open spec fn tcp_in(s: SocketSnapshot, state: Seq<char>) -> bool {
    s.protocol == SocketProtocol::Tcp && s.state@ == state
}

/// Whether two sockets fall in the same display group: both listening TCP, both established
/// TCP, both UDP, or both TCP in some other state.
pub open spec fn same_group(a: SocketSnapshot, b: SocketSnapshot) -> bool {
    &&& a.protocol == b.protocol
    &&& a.protocol == SocketProtocol::Tcp ==> (tcp_in(a, "LISTEN"@) == tcp_in(b, "LISTEN"@) && tcp_in(
        a,
        "ESTABLISHED"@,
    ) == tcp_in(b, "ESTABLISHED"@))
}

/// Law: in the ordered socket list nothing stands before a listening TCP socket but other
/// listening TCP sockets; only listening or established TCP sockets stand before an
/// established one; only those and UDP sockets stand before a UDP one; and within a group the
/// ports ascend.
pub proof fn sockets_are_grouped_then_ordered_by_port(sockets: Seq<SocketSnapshot>)
    ensures
        forall|i: int, j: int|
            0 <= i < j < sockets.len() && tcp_in(#[trigger] stable_sorted(sockets)[j], "LISTEN"@)
                ==> tcp_in(#[trigger] stable_sorted(sockets)[i], "LISTEN"@),
        forall|i: int, j: int|
            0 <= i < j < sockets.len() && tcp_in(#[trigger] stable_sorted(sockets)[j], "ESTABLISHED"@)
                ==> tcp_in(#[trigger] stable_sorted(sockets)[i], "LISTEN"@) || tcp_in(
                stable_sorted(sockets)[i],
                "ESTABLISHED"@,
            ),
        forall|i: int, j: int|
            0 <= i < j < sockets.len() && (#[trigger] stable_sorted(sockets)[j]).protocol
                == SocketProtocol::Udp ==> (#[trigger] stable_sorted(sockets)[i]).protocol
                == SocketProtocol::Udp || tcp_in(stable_sorted(sockets)[i], "LISTEN"@) || tcp_in(
                stable_sorted(sockets)[i],
                "ESTABLISHED"@,
            ),
        forall|i: int, j: int|
            0 <= i < j < sockets.len() && same_group(
                #[trigger] stable_sorted(sockets)[i],
                #[trigger] stable_sorted(sockets)[j],
            ) ==> stable_sorted(sockets)[i].local_port <= stable_sorted(sockets)[j].local_port,
{
    crate::sort::stable_sort_orders_and_permutes(sockets);
}

} // verus!
