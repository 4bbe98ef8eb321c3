use elementsd::config::build_args;
use elementsd::config::NodeLinkage;

#[test]
fn test_build_args_standalone() {
    let c = build_args(None);
    let expected = vec![
        "-fallbackfee=0.0001",
        "-dustrelayfee=0.00000001",
        "-chain=liquidregtest",
        "-initialfreecoins=2100000000",
        "-validatepegin=0",
    ];
    assert_eq!(c.args.len(), expected.len());
    for (got, want) in c.args.iter().zip(expected.iter()) {
        assert_eq!(got, want);
    }
    assert_eq!(c.network, "liquidregtest");
    for a in &c.args {
        assert!(!a.starts_with("-mainchainrpccookiefile="));
        assert!(!a.starts_with("-mainchainrpchost="));
        assert!(!a.starts_with("-mainchainrpcport="));
    }
}

#[test]
fn test_build_args_linked() {
    let linkage = NodeLinkage {
        cookie_file: String::from("/tmp/c"),
        host: String::from("127.0.0.1"),
        port: 18443,
    };
    let c = build_args(Some(&linkage));
    assert_eq!(c.args.len(), 8);
    let tail: Vec<&str> = c.args[4..].iter().map(|s| s.as_str()).collect();
    assert_eq!(
        tail,
        vec![
            "-validatepegin=1",
            "-mainchainrpccookiefile=/tmp/c",
            "-mainchainrpchost=127.0.0.1",
            "-mainchainrpcport=18443",
        ]
    );
    assert_eq!(c.network, "liquidregtest");
    let cookies = c.args.iter().filter(|a| a.starts_with("-mainchainrpccookiefile=")).count();
    let hosts = c.args.iter().filter(|a| a.starts_with("-mainchainrpchost=")).count();
    let ports = c.args.iter().filter(|a| a.starts_with("-mainchainrpcport=")).count();
    assert_eq!((cookies, hosts, ports), (1, 1, 1));
    assert!(!c.args.iter().any(|a| a == "-validatepegin=0"));
}

#[test]
fn test_build_args_port_rendering() {
    let low = NodeLinkage { cookie_file: String::new(), host: String::new(), port: 0 };
    assert_eq!(build_args(Some(&low)).args[7], "-mainchainrpcport=0");
    let high = NodeLinkage { cookie_file: String::new(), host: String::new(), port: 65535 };
    assert_eq!(build_args(Some(&high)).args[7], "-mainchainrpcport=65535");
}
