//! The configuration assembler: derives the daemon's startup arguments,
//! optionally including linkage parameters that point the node at an
//! already-running parent-chain node for peg-in validation.

use crate::chars::decimal_of;
use crate::chars::u64_to_decimal;
use vstd::prelude::*;
use vstd::string::StringExecFns;

verus! {

/// Connection and authentication metadata of a running parent-chain node:
/// its cookie file, RPC host and RPC port. Read only after that node has
/// started and written its cookie file.
pub struct NodeLinkage {
    pub cookie_file: String,
    pub host: String,
    pub port: u16,
}

pub ghost struct NodeLinkageView {
    pub cookie_file: Seq<char>,
    pub host: Seq<char>,
    pub port: u16,
}

impl View for NodeLinkage {
    type V = NodeLinkageView;

    open spec fn view(&self) -> NodeLinkageView {
        NodeLinkageView { cookie_file: self.cookie_file@, host: self.host@, port: self.port }
    }
}

/// The assembled launch configuration: an ordered argument list and the
/// network identifier, constructed once and consumed verbatim by the
/// process launcher.
pub struct LaunchConfig {
    pub args: Vec<String>,
    pub network: String,
}

/// The arguments every instance gets: a relay-fee floor, a dust-relay-fee
/// floor, the test-network chain identifier and the initial free-coin
/// supply.
pub open spec fn base_args_spec() -> Seq<Seq<char>> {
    seq![
        "-fallbackfee=0.0001"@,
        "-dustrelayfee=0.00000001"@,
        "-chain=liquidregtest"@,
        "-initialfreecoins=2100000000"@,
    ]
}

/// The linkage arguments: peg-in validation enabled, then the parent node's
/// cookie file, host and port, each as `key=value`.
pub open spec fn linkage_args_spec(l: NodeLinkageView) -> Seq<Seq<char>> {
    seq![
        "-validatepegin=1"@,
        "-mainchainrpccookiefile="@ + l.cookie_file,
        "-mainchainrpchost="@ + l.host,
        "-mainchainrpcport="@ + decimal_of(l.port as nat),
    ]
}

/// The full argument list: the base arguments, then either the
/// peg-in-disabled flag or the linkage arguments.
pub open spec fn launch_args_spec(linkage: Option<NodeLinkageView>) -> Seq<Seq<char>> {
    match linkage {
        None => base_args_spec() + seq!["-validatepegin=0"@],
        Some(l) => base_args_spec() + linkage_args_spec(l),
    }
}

/// The fixed test-network identifier.
pub open spec fn network_spec() -> Seq<char> {
    "liquidregtest"@
}

/// Assembles the launch configuration for a node instance. Pure data
/// transformation: with no linkage, the peg-in-disabled flag is appended;
/// with a linkage, the peg-in-enabled flag and the three linkage arguments
/// carrying the parent node's fields verbatim.
pub fn build_args(linkage: Option<&NodeLinkage>) -> (c: LaunchConfig)
    ensures
        c.args.deep_view() == launch_args_spec(
            match linkage {
                None => None,
                Some(l) => Some(l@),
            },
        ),
        c.network@ == network_spec(),
{
    let mut args: Vec<String> = Vec::new();
    args.push(String::from_str("-fallbackfee=0.0001"));
    args.push(String::from_str("-dustrelayfee=0.00000001"));
    args.push(String::from_str("-chain=liquidregtest"));
    args.push(String::from_str("-initialfreecoins=2100000000"));
    match linkage {
        None => {
            args.push(String::from_str("-validatepegin=0"));
            proof {
                assert(args.deep_view() =~~= launch_args_spec(None));
            }
        },
        Some(l) => {
            args.push(String::from_str("-validatepegin=1"));
            let mut cookie = String::from_str("-mainchainrpccookiefile=");
            cookie.append(l.cookie_file.as_str());
            args.push(cookie);
            let mut host = String::from_str("-mainchainrpchost=");
            host.append(l.host.as_str());
            args.push(host);
            let mut port = String::from_str("-mainchainrpcport=");
            let rendered = u64_to_decimal(l.port as u64);
            port.append(rendered.as_str());
            args.push(port);
            proof {
                assert(args.deep_view() =~~= launch_args_spec(Some(l@)));
            }
        },
    }
    LaunchConfig { args, network: String::from_str("liquidregtest") }
}

/// An argument that carries the parent node's cookie-file path.
pub open spec fn is_cookie_arg(a: Seq<char>) -> bool {
    "-mainchainrpccookiefile="@.is_prefix_of(a)
}

/// An argument that carries the parent node's RPC host.
pub open spec fn is_host_arg(a: Seq<char>) -> bool {
    "-mainchainrpchost="@.is_prefix_of(a)
}

/// An argument that carries the parent node's RPC port.
pub open spec fn is_port_arg(a: Seq<char>) -> bool {
    "-mainchainrpcport="@.is_prefix_of(a)
}

/// An argument that points the node at a parent-chain instance.
pub open spec fn is_linkage_arg(a: Seq<char>) -> bool {
    is_cookie_arg(a) || is_host_arg(a) || is_port_arg(a)
}

/// Without linkage, the argument list carries the peg-in-disabled flag —
/// and not the enabled one — and no cookie-file, host or port argument at
/// all.
pub proof fn lemma_standalone_args()
    ensures
        launch_args_spec(None) == base_args_spec() + seq!["-validatepegin=0"@],
        launch_args_spec(None).contains("-validatepegin=0"@),
        !launch_args_spec(None).contains("-validatepegin=1"@),
        forall|i: int|
            0 <= i < launch_args_spec(None).len() ==> !is_linkage_arg(
                #[trigger] launch_args_spec(None)[i],
            ),
{
    reveal_strlit("-fallbackfee=0.0001");
    reveal_strlit("-dustrelayfee=0.00000001");
    reveal_strlit("-chain=liquidregtest");
    reveal_strlit("-initialfreecoins=2100000000");
    reveal_strlit("-validatepegin=0");
    reveal_strlit("-validatepegin=1");
    reveal_strlit("-mainchainrpccookiefile=");
    reveal_strlit("-mainchainrpchost=");
    reveal_strlit("-mainchainrpcport=");
    let args = launch_args_spec(None);
    assert(args[4] == "-validatepegin=0"@);
    assert(args.contains("-validatepegin=0"@));
    assert forall|i: int| 0 <= i < args.len() implies args[i] != "-validatepegin=1"@ by {
        assert("-validatepegin=0"@[15] == '0');
        assert("-validatepegin=1"@[15] == '1');
    }
    assert forall|i: int| 0 <= i < args.len() implies !is_linkage_arg(#[trigger] args[i]) by {
        lemma_base_args_not_linkage(args[i], i);
    }
}

proof fn lemma_base_args_not_linkage(a: Seq<char>, i: int)
    requires
        0 <= i < 5,
        i < 4 ==> a == base_args_spec()[i],
        i == 4 ==> a == "-validatepegin=0"@ || a == "-validatepegin=1"@,
    ensures
        !is_linkage_arg(a),
{
    reveal_strlit("-fallbackfee=0.0001");
    reveal_strlit("-dustrelayfee=0.00000001");
    reveal_strlit("-chain=liquidregtest");
    reveal_strlit("-initialfreecoins=2100000000");
    reveal_strlit("-validatepegin=0");
    reveal_strlit("-validatepegin=1");
    reveal_strlit("-mainchainrpccookiefile=");
    reveal_strlit("-mainchainrpchost=");
    reveal_strlit("-mainchainrpcport=");
    if is_cookie_arg(a) {
        assert(a.subrange(0, 24)[13] == a[13]);
        assert(false);
    }
    if is_host_arg(a) {
        assert(a.subrange(0, 18)[1] == a[1]);
        assert(a.subrange(0, 18)[13] == a[13]);
        assert(false);
    }
    if is_port_arg(a) {
        assert(a.subrange(0, 18)[1] == a[1]);
        assert(a.subrange(0, 18)[13] == a[13]);
        assert(false);
    }
}

/// With linkage, the argument list ends with the peg-in-enabled flag and
/// then exactly one cookie-file, one host and one port argument, in that
/// order, carrying the linkage's fields verbatim; the peg-in-disabled flag
/// does not occur.
pub proof fn lemma_linked_args(l: NodeLinkageView)
    ensures
        launch_args_spec(Some(l)).len() == 8,
        launch_args_spec(Some(l))[4] == "-validatepegin=1"@,
        launch_args_spec(Some(l))[5] == "-mainchainrpccookiefile="@ + l.cookie_file,
        launch_args_spec(Some(l))[6] == "-mainchainrpchost="@ + l.host,
        launch_args_spec(Some(l))[7] == "-mainchainrpcport="@ + decimal_of(l.port as nat),
        forall|i: int|
            0 <= i < 8 ==> (is_cookie_arg(#[trigger] launch_args_spec(Some(l))[i]) <==> i == 5),
        forall|i: int|
            0 <= i < 8 ==> (is_host_arg(#[trigger] launch_args_spec(Some(l))[i]) <==> i == 6),
        forall|i: int|
            0 <= i < 8 ==> (is_port_arg(#[trigger] launch_args_spec(Some(l))[i]) <==> i == 7),
        !launch_args_spec(Some(l)).contains("-validatepegin=0"@),
{
    reveal_strlit("-fallbackfee=0.0001");
    reveal_strlit("-dustrelayfee=0.00000001");
    reveal_strlit("-chain=liquidregtest");
    reveal_strlit("-initialfreecoins=2100000000");
    reveal_strlit("-validatepegin=0");
    reveal_strlit("-validatepegin=1");
    reveal_strlit("-mainchainrpccookiefile=");
    reveal_strlit("-mainchainrpchost=");
    reveal_strlit("-mainchainrpcport=");
    let args = launch_args_spec(Some(l));
    assert(("-mainchainrpccookiefile="@ + l.cookie_file).subrange(0, 24)
        =~= "-mainchainrpccookiefile="@);
    assert(("-mainchainrpchost="@ + l.host).subrange(0, 18) =~= "-mainchainrpchost="@);
    assert(("-mainchainrpcport="@ + decimal_of(l.port as nat)).subrange(0, 18)
        =~= "-mainchainrpcport="@);
    assert(is_cookie_arg(args[5]));
    assert(is_host_arg(args[6]));
    assert(is_port_arg(args[7]));
    assert forall|i: int| 0 <= i < 8 && i != 5 implies !is_cookie_arg(#[trigger] args[i]) by {
        if i < 5 {
            lemma_base_args_not_linkage(args[i], i);
        } else {
            lemma_linkage_args_distinct(l, i);
        }
    }
    assert forall|i: int| 0 <= i < 8 && i != 6 implies !is_host_arg(#[trigger] args[i]) by {
        if i < 5 {
            lemma_base_args_not_linkage(args[i], i);
        } else {
            lemma_linkage_args_distinct(l, i);
        }
    }
    assert forall|i: int| 0 <= i < 8 && i != 7 implies !is_port_arg(#[trigger] args[i]) by {
        if i < 5 {
            lemma_base_args_not_linkage(args[i], i);
        } else {
            lemma_linkage_args_distinct(l, i);
        }
    }
    assert forall|i: int| 0 <= i < args.len() implies args[i] != "-validatepegin=0"@ by {
        if i < 5 {
            assert("-validatepegin=0"@[15] == '0');
            assert("-validatepegin=1"@[15] == '1');
        } else {
            lemma_linkage_args_distinct(l, i);
            assert(args[i].len() >= 18);
        }
    }
}

proof fn lemma_linkage_args_distinct(l: NodeLinkageView, i: int)
    requires
        5 <= i < 8,
    ensures
        is_cookie_arg(launch_args_spec(Some(l))[i]) <==> i == 5,
        is_host_arg(launch_args_spec(Some(l))[i]) <==> i == 6,
        is_port_arg(launch_args_spec(Some(l))[i]) <==> i == 7,
        launch_args_spec(Some(l))[i].len() >= 18,
{
    reveal_strlit("-mainchainrpccookiefile=");
    reveal_strlit("-mainchainrpchost=");
    reveal_strlit("-mainchainrpcport=");
    let args = launch_args_spec(Some(l));
    let a = args[i];
    if i == 5 {
        assert(a.subrange(0, 24) =~= "-mainchainrpccookiefile="@);
        if is_host_arg(a) {
            assert(a.subrange(0, 18)[13] == a[13]);
            assert(false);
        }
        if is_port_arg(a) {
            assert(a.subrange(0, 18)[13] == a[13]);
            assert(false);
        }
    } else if i == 6 {
        assert(a.subrange(0, 18) =~= "-mainchainrpchost="@);
        if is_cookie_arg(a) {
            assert(a.subrange(0, 24)[13] == a[13]);
            assert(false);
        }
        if is_port_arg(a) {
            assert(a.subrange(0, 18)[13] == a[13]);
            assert(false);
        }
    } else {
        assert(a.subrange(0, 18) =~= "-mainchainrpcport="@);
        if is_cookie_arg(a) {
            assert(a.subrange(0, 24)[13] == a[13]);
            assert(false);
        }
        if is_host_arg(a) {
            assert(a.subrange(0, 18)[13] == a[13]);
            assert(false);
        }
    }
}

} // verus!
