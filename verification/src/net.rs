//! Host and container networking: the addresses taken from the container
//! network, and the `ip` commands that build, configure and remove the
//! bridge and the veth pair.

use crate::plan::{best_effort, ip_step, owned_list, required, Op, OpModel, Step, StepModel};
use crate::text::{decimal, followed_by, push_decimal, signed_decimal, signed_decimal_string};
use vstd::arithmetic::power2::*;
use vstd::prelude::*;
use vstd::string::*;

verus! {

/// Name of the bridge on the host.
pub const BRIDGE_NAME: &'static str = "br0";

/// Name of the host side of the veth pair.
pub const VETH_HOST: &'static str = "veth0h0";

/// Name of the container side of the veth pair.
pub const VETH_CONTAINER: &'static str = "veth0c0";

/// How many addresses a network with this prefix length holds; none
/// where the prefix is longer than an address.
pub open spec fn network_size(prefix_len: u8) -> nat {
    if prefix_len <= 32 {
        pow2((32 - prefix_len) as nat)
    } else {
        0
    }
}

/// Whether `base` with `prefix_len` names an IPv4 network: the prefix is at
/// most 32 bits long and every bit of `base` after the prefix is zero.
pub open spec fn is_network(base: u32, prefix_len: u8) -> bool {
    prefix_len <= 32 && base as nat % network_size(prefix_len) == 0
}

/// The address `n` places after the first one of the network, if the
/// network holds that many.
pub open spec fn nth_address(base: u32, prefix_len: u8, n: nat) -> Option<u32> {
    if is_network(base, prefix_len) && n < network_size(prefix_len) {
        Some((base + n) as u32)
    } else {
        None
    }
}

/// The address `a.b.c.d` as one number, `a` in the highest byte.
pub open spec fn address_of(a: u8, b: u8, c: u8, d: u8) -> u32 {
    (a * 0x100_0000 + b * 0x1_0000 + c * 0x100 + d) as u32
}

/// The dotted-quad text of an address.
pub open spec fn dotted_quad(addr: u32) -> Seq<char> {
    decimal((addr / 0x100_0000) as nat) + seq!['.'] + decimal((addr / 0x1_0000 % 0x100) as nat)
        + seq!['.'] + decimal((addr / 0x100 % 0x100) as nat) + seq!['.'] + decimal(
        (addr % 0x100) as nat,
    )
}

/// An IPv4 network in CIDR form: its first address and the length of its prefix.
#[derive(Clone, Copy, Debug, PartialEq, Eq)]
pub struct Ipv4Network {
    base: u32,
    prefix_len: u8,
}

/// Why no addresses could be taken from a network.
#[derive(Clone, Copy, Debug, PartialEq, Eq, Structural)]
pub enum NetError {
    /// The network has no second host address for the host side: it
    /// holds fewer than four addresses.
    NoHostAddress,
    /// The network has a second host address but no third for the
    /// container side. As the size of a network is a power of two, no
    /// network is of this kind.
    NoContainerAddress,
}

impl Ipv4Network {
    /// The first address of the network.
    pub closed spec fn base(&self) -> u32 {
        self.base
    }

    /// The number of leading bits that all addresses of the network share.
    pub closed spec fn prefix_len(&self) -> u8 {
        self.prefix_len
    }

    /// Every value of the type names a network.
    #[verifier::type_invariant]
    spec fn well_formed(self) -> bool {
        is_network(self.base, self.prefix_len)
    }

    /// The network with first address `base` and prefix length `prefix_len`,
    /// if the two name one.
    pub fn new(base: u32, prefix_len: u8) -> (r: Option<Ipv4Network>)
        ensures
            r is Some <==> is_network(base, prefix_len),
            r matches Some(n) ==> n.base() == base && n.prefix_len() == prefix_len,
    {
        if prefix_len > 32 {
            return None;
        }
        let mut size: u64 = 1;
        let mut i: u8 = 0;
        proof {
            lemma2_to64();
        }
        while i < 32 - prefix_len
            invariant
                prefix_len <= 32,
                i <= 32 - prefix_len,
                size == pow2(i as nat),
                size <= 0x1_0000_0000,
            decreases 32 - prefix_len - i,
        {
            proof {
                lemma_pow2_unfold((i + 1) as nat);
                lemma_pow2_strictly_increases((i + 1) as nat, 33);
                lemma2_to64();
            }
            size = size * 2;
            i += 1;
        }
        if base as u64 % size == 0 {
            Some(Ipv4Network { base, prefix_len })
        } else {
            None
        }
    }

    /// The first address of the network.
    #[verifier::when_used_as_spec(base)]
    pub fn first_address(&self) -> (a: u32)
        ensures
            a == self.base(),
    {
        self.base
    }

    /// The length of the network's prefix, in bits.
    #[verifier::when_used_as_spec(prefix_len)]
    pub fn network_length(&self) -> (l: u8)
        ensures
            l == self.prefix_len(),
    {
        self.prefix_len
    }
}

/// A network never reaches past the last IPv4 address.
pub proof fn lemma_network_span(base: u32, prefix_len: u8)
    requires
        is_network(base, prefix_len),
    ensures
        base + network_size(prefix_len) <= 0x1_0000_0000,
{
    let size = network_size(prefix_len);
    lemma_pow2_adds((32 - prefix_len) as nat, prefix_len as nat);
    lemma2_to64();
    lemma_pow2_pos((32 - prefix_len) as nat);
    let k = base as nat / size;
    let top = pow2(prefix_len as nat);
    assert(base as nat == size * k) by {
        vstd::arithmetic::div_mod::lemma_fundamental_div_mod(base as int, size as int);
    }
    assert(k < top) by (nonlinear_arith)
        requires
            size * k < size * top,
            size > 0,
    ;
    assert(size * k + size <= size * top) by (nonlinear_arith)
        requires
            k + 1 <= top,
            size > 0,
    ;
}

/// What `cidr::Ipv4Cidr::new(base, prefix_len)` followed by `iter().nth(n)`
/// on the network gives, as a number: `new` refuses a prefix longer than
/// 32 bits and a `base` with bits set after the prefix; the iterator walks
/// from the first address of the network to its last, one address at a
/// time, so that its `n`-th item (from zero) is `base + n` while that is
/// still inside the network, and nothing after that.
#[verifier::external_body]
fn cidr_nth_address(base: u32, prefix_len: u8, n: usize) -> (r: Option<u32>)
    ensures
        r == nth_address(base, prefix_len, n as nat),
{
    let network = match cidr::Ipv4Cidr::new(base.into(), prefix_len) {
        Ok(network) => network,
        Err(_) => return None,
    };
    match network.iter().nth(n) {
        Some(inet) => Some(inet.address().into()),
        None => None,
    }
}

/// A network holds one, two, or at least four addresses.
pub proof fn lemma_network_sizes(prefix_len: u8)
    ensures
        network_size(prefix_len) <= 2 || network_size(prefix_len) >= 4,
{
    lemma2_to64();
    if prefix_len < 30 {
        lemma_pow2_strictly_increases(2, (32 - prefix_len) as nat);
    }
}

/// The addresses of the two ends of the link between host and container.
/// The first address of a network names the network itself; the host
/// addresses follow it. The host side takes the second host address, two
/// places after the first address of the network, and the container side
/// the third, three places after it. A network with fewer than four
/// addresses has neither.
pub fn ips_from_cidr(netw: &Ipv4Network) -> (r: Result<(u32, u32), NetError>)
    ensures
        match r {
            Ok((host, container)) => {
                &&& network_size(netw.prefix_len()) >= 4
                &&& host == netw.base() + 2
                &&& container == netw.base() + 3
            },
            Err(NetError::NoHostAddress) => network_size(netw.prefix_len()) < 4,
            Err(NetError::NoContainerAddress) => false,
        },
{
    proof {
        use_type_invariant(netw);
        lemma_network_span(netw.base, netw.prefix_len);
        lemma_network_sizes(netw.prefix_len);
    }
    let host = match cidr_nth_address(netw.base, netw.prefix_len, 2) {
        Some(host) => host,
        None => {
            return Err(NetError::NoHostAddress);
        },
    };
    let container = match cidr_nth_address(netw.base, netw.prefix_len, 3) {
        Some(container) => container,
        None => {
            return Err(NetError::NoContainerAddress);
        },
    };
    Ok((host, container))
}

/// The address `a.b.c.d` as one number.
pub fn address_from_octets(a: u8, b: u8, c: u8, d: u8) -> (addr: u32)
    ensures
        addr == address_of(a, b, c, d),
{
    a as u32 * 0x100_0000 + b as u32 * 0x1_0000 + c as u32 * 0x100 + d as u32
}

/// The dotted-quad text of `addr`.
pub fn dotted_quad_string(addr: u32) -> (s: String)
    ensures
        s@ == dotted_quad(addr),
{
    let mut s = String::new();
    push_decimal(&mut s, (addr / 0x100_0000) as u64);
    s.append(".");
    push_decimal(&mut s, (addr / 0x1_0000 % 0x100) as u64);
    s.append(".");
    push_decimal(&mut s, (addr / 0x100 % 0x100) as u64);
    s.append(".");
    push_decimal(&mut s, (addr % 0x100) as u64);
    proof {
        reveal_strlit(".");
    }
    s
}

/// The step that runs `ip` with `args` and must succeed.
pub open spec fn ip(args: Seq<Seq<char>>) -> StepModel {
    required(OpModel::Ip { args })
}

/// `addr` in dotted-quad form with the `/24` suffix under which addresses are assigned.
pub open spec fn with_prefix_24(addr: u32) -> Seq<char> {
    dotted_quad(addr) + "/24"@
}

/// The commands that create the bridge, give it `ipaddr` and bring it up.
pub open spec fn bridge_plan(ipaddr: u32) -> Seq<StepModel> {
    seq![
        ip(seq!["link"@, "add"@, "name"@, BRIDGE_NAME@, "type"@, "bridge"@]),
        ip(seq!["addr"@, "add"@, with_prefix_24(ipaddr), "dev"@, BRIDGE_NAME@]),
        ip(seq!["link"@, "set"@, "dev"@, BRIDGE_NAME@, "up"@]),
    ]
}

/// The commands that create the veth pair, bring its host side up and
/// attach that side to the bridge.
pub open spec fn veth_pair_plan() -> Seq<StepModel> {
    seq![
        ip(
            seq![
                "link"@,
                "add"@,
                "name"@,
                VETH_HOST@,
                "type"@,
                "veth"@,
                "peer"@,
                "name"@,
                VETH_CONTAINER@,
            ],
        ),
        ip(seq!["link"@, "set"@, "dev"@, VETH_HOST@, "up"@]),
        ip(seq!["link"@, "set"@, "dev"@, VETH_HOST@, "master"@, BRIDGE_NAME@]),
    ]
}

/// The command that moves the container side of the veth pair into the
/// network namespace of process `child_pid`.
pub open spec fn move_plan(child_pid: i32) -> Seq<StepModel> {
    seq![
        ip(seq!["link"@, "set"@, "dev"@, VETH_CONTAINER@, "netns"@, signed_decimal(child_pid as int)]),
    ]
}

/// The commands that configure the network inside the container: with
/// `is_root`, the container side of the veth pair gets `container_ip`, is
/// brought up and carries the default route through `host_ip`; in every
/// case the loopback interface is brought up.
pub open spec fn container_net_plan(host_ip: u32, container_ip: u32, is_root: bool) -> Seq<
    StepModel,
> {
    let veth = seq![
        ip(seq!["addr"@, "add"@, with_prefix_24(container_ip), "dev"@, VETH_CONTAINER@]),
        ip(seq!["link"@, "set"@, "dev"@, VETH_CONTAINER@, "up"@]),
        ip(
            seq![
                "route"@,
                "add"@,
                "default"@,
                "via"@,
                dotted_quad(host_ip),
                "dev"@,
                VETH_CONTAINER@,
            ],
        ),
    ];
    let lo = seq![ip(seq!["link"@, "set"@, "dev"@, "lo"@, "up"@])];
    if is_root {
        veth + lo
    } else {
        lo
    }
}

/// The command that deletes the bridge, and with it the host side of the
/// veth pair. Its failure is passed over.
pub open spec fn cleanup_plan() -> Seq<StepModel> {
    seq![best_effort(OpModel::Ip { args: seq!["link"@, "delete"@, BRIDGE_NAME@] })]
}

/// Creates a bridge with the given address and brings the interface up.
pub fn create_bridge(ipaddr: u32) -> (plan: Vec<Step>)
    ensures
        plan.deep_view() == bridge_plan(ipaddr),
{
    let address = followed_by(dotted_quad_string(ipaddr).as_str(), "/24");
    let add = ["link", "add", "name", BRIDGE_NAME, "type", "bridge"];
    let assign = ["addr", "add", address.as_str(), "dev", BRIDGE_NAME];
    let up = ["link", "set", "dev", BRIDGE_NAME, "up"];
    let mut plan: Vec<Step> = Vec::new();
    plan.push(ip_step(add.as_slice()));
    plan.push(ip_step(assign.as_slice()));
    plan.push(ip_step(up.as_slice()));
    proof {
        assert(add.deep_view() =~= seq!["link"@, "add"@, "name"@, BRIDGE_NAME@, "type"@, "bridge"@]);
        assert(assign.deep_view() =~= seq![
            "addr"@,
            "add"@,
            with_prefix_24(ipaddr),
            "dev"@,
            BRIDGE_NAME@,
        ]);
        assert(up.deep_view() =~= seq!["link"@, "set"@, "dev"@, BRIDGE_NAME@, "up"@]);
    }
    plan
}

/// Creates the veth pair, brings the host side up and attaches it to the bridge.
pub fn create_veth_pair() -> (plan: Vec<Step>)
    ensures
        plan.deep_view() == veth_pair_plan(),
{
    let add = [
        "link",
        "add",
        "name",
        VETH_HOST,
        "type",
        "veth",
        "peer",
        "name",
        VETH_CONTAINER,
    ];
    let up = ["link", "set", "dev", VETH_HOST, "up"];
    let attach = ["link", "set", "dev", VETH_HOST, "master", BRIDGE_NAME];
    let mut plan: Vec<Step> = Vec::new();
    plan.push(ip_step(add.as_slice()));
    plan.push(ip_step(up.as_slice()));
    plan.push(ip_step(attach.as_slice()));
    proof {
        assert(add.deep_view() =~= seq![
            "link"@,
            "add"@,
            "name"@,
            VETH_HOST@,
            "type"@,
            "veth"@,
            "peer"@,
            "name"@,
            VETH_CONTAINER@,
        ]);
        assert(up.deep_view() =~= seq!["link"@, "set"@, "dev"@, VETH_HOST@, "up"@]);
        assert(attach.deep_view() =~= seq![
            "link"@,
            "set"@,
            "dev"@,
            VETH_HOST@,
            "master"@,
            BRIDGE_NAME@,
        ]);
    }
    plan
}

/// Removes the bridge device.
pub fn cleanup_network() -> (plan: Vec<Step>)
    ensures
        plan.deep_view() == cleanup_plan(),
{
    let delete = ["link", "delete", BRIDGE_NAME];
    let mut plan: Vec<Step> = Vec::new();
    plan.push(Step::best_effort(Op::Ip { args: owned_list(delete.as_slice()) }));
    proof {
        assert(delete.deep_view() =~= seq!["link"@, "delete"@, BRIDGE_NAME@]);
    }
    plan
}

/// Moves the container side of the veth pair into the network namespace
/// of the process `child_pid`.
pub fn move_into_container(child_pid: i32) -> (plan: Vec<Step>)
    ensures
        plan.deep_view() == move_plan(child_pid),
{
    let pid = signed_decimal_string(child_pid as i64);
    let set = ["link", "set", "dev", VETH_CONTAINER, "netns", pid.as_str()];
    let mut plan: Vec<Step> = Vec::new();
    plan.push(ip_step(set.as_slice()));
    proof {
        assert(set.deep_view() =~= seq![
            "link"@,
            "set"@,
            "dev"@,
            VETH_CONTAINER@,
            "netns"@,
            signed_decimal(child_pid as int),
        ]);
    }
    plan
}

/// Sets up the network on the host side: the bridge with the second host
/// address of the network, then the veth pair with its host side attached
/// to the bridge.
pub fn setup_network_host(netw: &Ipv4Network) -> (r: Result<Vec<Step>, NetError>)
    ensures
        match r {
            Ok(plan) => {
                &&& network_size(netw.prefix_len()) >= 4
                &&& plan.deep_view() == bridge_plan((netw.base() + 2) as u32) + veth_pair_plan()
            },
            Err(NetError::NoHostAddress) => network_size(netw.prefix_len()) < 4,
            Err(NetError::NoContainerAddress) => false,
        },
{
    let (host_ip, _) = match ips_from_cidr(netw) {
        Ok(ips) => ips,
        Err(e) => {
            return Err(e);
        },
    };
    let mut plan = create_bridge(host_ip);
    let mut veth = create_veth_pair();
    plan.append(&mut veth);
    Ok(plan)
}

/// Brings up the network on the container side: with `is_root`, the
/// container side of the veth pair, with the third host address of the
/// network and the default route through the second; in every case the
/// loopback interface.
pub fn bring_up_container_net(netw: &Ipv4Network, is_root: bool) -> (r: Result<
    Vec<Step>,
    NetError,
>)
    ensures
        match r {
            Ok(plan) => {
                &&& network_size(netw.prefix_len()) >= 4
                &&& plan.deep_view() == container_net_plan(
                    (netw.base() + 2) as u32,
                    (netw.base() + 3) as u32,
                    is_root,
                )
            },
            Err(NetError::NoHostAddress) => network_size(netw.prefix_len()) < 4,
            Err(NetError::NoContainerAddress) => false,
        },
{
    let (host_ip, container_ip) = match ips_from_cidr(netw) {
        Ok(ips) => ips,
        Err(e) => {
            return Err(e);
        },
    };
    let mut plan: Vec<Step> = Vec::new();
    if is_root {
        let address = followed_by(dotted_quad_string(container_ip).as_str(), "/24");
        let gateway = dotted_quad_string(host_ip);
        let assign = ["addr", "add", address.as_str(), "dev", VETH_CONTAINER];
        let up = ["link", "set", "dev", VETH_CONTAINER, "up"];
        let route = ["route", "add", "default", "via", gateway.as_str(), "dev", VETH_CONTAINER];
        plan.push(ip_step(assign.as_slice()));
        plan.push(ip_step(up.as_slice()));
        plan.push(ip_step(route.as_slice()));
        proof {
            assert(assign.deep_view() =~= seq![
                "addr"@,
                "add"@,
                with_prefix_24(container_ip),
                "dev"@,
                VETH_CONTAINER@,
            ]);
            assert(up.deep_view() =~= seq!["link"@, "set"@, "dev"@, VETH_CONTAINER@, "up"@]);
            assert(route.deep_view() =~= seq![
                "route"@,
                "add"@,
                "default"@,
                "via"@,
                dotted_quad(host_ip),
                "dev"@,
                VETH_CONTAINER@,
            ]);
        }
    }
    let lo = ["link", "set", "dev", "lo", "up"];
    plan.push(ip_step(lo.as_slice()));
    proof {
        assert(lo.deep_view() =~= seq!["link"@, "set"@, "dev"@, "lo"@, "up"@]);
    }
    Ok(plan)
}

} // verus!
