use key_server::{eq_ignore_ascii_case, Network, NetworkError, ObjectId, PackageIdSetting, SealPackage};

fn id(b: u8) -> ObjectId {
    ObjectId([b; 32])
}

fn resolve(selector: &str) -> Result<Network, NetworkError> {
    Network::from_str(selector, None, PackageIdSetting::Unset)
}

#[test]
fn selector_matching_ignores_case() {
    assert_eq!(resolve("Mainnet"), Ok(Network::Mainnet));
    assert_eq!(resolve("MAINNET"), Ok(Network::Mainnet));
    assert_eq!(resolve("mainnet"), Ok(Network::Mainnet));
    assert_eq!(resolve("TestNet"), Ok(Network::Testnet));
    assert_eq!(
        Network::from_str("DEVNET", None, PackageIdSetting::Parsed(id(1))),
        Ok(Network::Devnet { seal_package: SealPackage::Custom(id(1)) })
    );
    assert!(matches!(resolve("CuStOm"), Ok(Network::Custom { .. })));
}

#[test]
fn unknown_selector_fails_with_the_given_text() {
    for s in ["", "main", "mainnet ", "localnet", "devnets", "Custom1", "t\u{e9}stnet"] {
        assert_eq!(resolve(s), Err(NetworkError::UnknownNetworkSelector(s.to_string())));
    }
}

#[test]
fn testnet_and_mainnet_ignore_configuration() {
    let settings = [PackageIdSetting::Unset, PackageIdSetting::Malformed, PackageIdSetting::Parsed(id(9))];
    for setting in settings {
        let t = Network::from_str("testnet", Some("http://x".to_string()), setting).unwrap();
        assert_eq!(t, Network::Testnet);
        assert_eq!(t.get_seal_package(), SealPackage::Testnet);
        let m = Network::from_str("mainnet", None, setting).unwrap();
        assert_eq!(m, Network::Mainnet);
        assert_eq!(m.get_seal_package(), SealPackage::Mainnet);
    }
}

#[test]
fn custom_without_package_trusts_mainnet() {
    let n = Network::from_str("custom", Some("http://localhost:9000".to_string()), PackageIdSetting::Unset).unwrap();
    assert_eq!(
        n,
        Network::Custom {
            node_url: Some("http://localhost:9000".to_string()),
            use_default_mainnet_for_mvr: None,
            seal_package: None,
        }
    );
    assert_eq!(n.get_seal_package(), SealPackage::Mainnet);
}

#[test]
fn custom_package_override_is_trusted() {
    let n = Network::from_str("custom", None, PackageIdSetting::Parsed(id(0xab))).unwrap();
    assert_eq!(n.get_seal_package(), SealPackage::Custom(id(0xab)));
}

#[test]
fn custom_malformed_package_fails() {
    assert_eq!(
        Network::from_str("custom", Some("http://localhost:9000".to_string()), PackageIdSetting::Malformed),
        Err(NetworkError::InvalidIdentifierFormat)
    );
}

#[test]
fn devnet_without_package_fails() {
    assert_eq!(resolve("devnet"), Err(NetworkError::MissingRequiredIdentifier));
    assert_eq!(
        Network::from_str("devnet", Some("http://x".to_string()), PackageIdSetting::Unset),
        Err(NetworkError::MissingRequiredIdentifier)
    );
}

#[test]
fn devnet_malformed_package_fails() {
    assert_eq!(
        Network::from_str("devnet", None, PackageIdSetting::Malformed),
        Err(NetworkError::InvalidIdentifierFormat)
    );
}

#[test]
fn devnet_with_package_trusts_it() {
    let n = Network::from_str("devnet", None, PackageIdSetting::Parsed(id(3))).unwrap();
    assert_eq!(n.get_seal_package(), SealPackage::Custom(id(3)));
    let explicit = Network::Devnet { seal_package: SealPackage::Testnet };
    assert_eq!(explicit.get_seal_package(), SealPackage::Testnet);
}

#[test]
fn fixed_endpoints() {
    assert_eq!(
        Network::Devnet { seal_package: SealPackage::Custom(id(0)) }.node_url(),
        Ok("https://fullnode.devnet.sui.io:443".to_string())
    );
    assert_eq!(Network::Testnet.node_url(), Ok("https://fullnode.testnet.sui.io:443".to_string()));
    assert_eq!(Network::Mainnet.node_url(), Ok("https://fullnode.mainnet.sui.io:443".to_string()));
}

#[test]
fn custom_without_endpoint_fails() {
    let n = resolve("custom").unwrap();
    assert_eq!(n.node_url(), Err(NetworkError::MissingCustomEndpoint));
}

#[test]
fn custom_endpoint_is_returned_as_given() {
    let n = Network::Custom {
        node_url: Some("https://rpc.example.org:8443/v1".to_string()),
        use_default_mainnet_for_mvr: Some(true),
        seal_package: None,
    };
    assert_eq!(n.node_url(), Ok("https://rpc.example.org:8443/v1".to_string()));
    let empty = Network::Custom { node_url: Some(String::new()), use_default_mainnet_for_mvr: None, seal_package: None };
    assert_eq!(empty.node_url(), Ok(String::new()));
}

#[test]
fn ascii_case_comparison() {
    assert!(eq_ignore_ascii_case("AbC", "aBc"));
    assert!(eq_ignore_ascii_case("", ""));
    assert!(!eq_ignore_ascii_case("abc", "abcd"));
    assert!(!eq_ignore_ascii_case("a[c", "a{c"));
    assert!(!eq_ignore_ascii_case("\u{c9}", "\u{e9}"));
    assert!(eq_ignore_ascii_case("x\u{e9}Z", "X\u{e9}z"));
}
