//! The network variants, their resolution from a selector and configuration
//! values, and the endpoint and trusted package of a resolved network.

use vstd::prelude::*;
use crate::selector::{eq_ignore_ascii_case, same_ignoring_ascii_case};

verus! {

/// The address of an on-chain object.
#[derive(Clone, Copy, Debug, PartialEq, Eq, Hash)]
pub struct ObjectId(pub [u8; 32]);

/// The seal package deployment a key server trusts.
#[derive(Clone, Copy, Debug, PartialEq, Eq, Hash)]
pub enum SealPackage {
    Testnet,
    Mainnet,
    Custom(ObjectId),
}

/// What the configuration says of the package identifier.
#[derive(Clone, Copy, Debug, PartialEq, Eq)]
pub enum PackageIdSetting {
    /// No identifier was given.
    Unset,
    /// An identifier was given and it does not parse.
    Malformed,
    /// An identifier was given and it parses to this address.
    Parsed(ObjectId),
}

/// Why a network could not be resolved, or has no endpoint.
#[derive(Clone, Debug, PartialEq, Eq)]
pub enum NetworkError {
    /// The selector names none of the known networks; it is kept as given.
    UnknownNetworkSelector(String),
    /// Devnet was selected and no package identifier was given.
    MissingRequiredIdentifier,
    /// A package identifier was given and it does not parse.
    InvalidIdentifierFormat,
    /// The endpoint of a custom network was asked for and none was configured.
    MissingCustomEndpoint,
}

/// A resolved network: where the chain is reached and which package is trusted.
#[derive(Clone, Debug, PartialEq, Eq)]
pub enum Network {
    /// Devnet always carries the package it trusts: its deployment changes
    /// too often for any default to be safe.
    Devnet { seal_package: SealPackage },
    Testnet,
    Mainnet,
    /// A deployment of the operator's choosing.
    Custom {
        /// The endpoint; without one the endpoint cannot be asked for.
        node_url: Option<String>,
        /// Carried through configuration; resolution does not read it.
        use_default_mainnet_for_mvr: Option<bool>,
        /// The trusted package; without one the mainnet package is trusted.
        seal_package: Option<SealPackage>,
    },
}

/// The four networks a selector can name.
#[derive(Clone, Copy, Debug, PartialEq, Eq)]
pub enum NetworkName {
    Devnet,
    Testnet,
    Mainnet,
    Custom,
}

/// The network that selector `s` names, if any, ignoring ASCII case.
pub open spec fn named_network(s: Seq<char>) -> Option<NetworkName> {
    if same_ignoring_ascii_case(s, "devnet"@) {
        Some(NetworkName::Devnet)
    } else if same_ignoring_ascii_case(s, "testnet"@) {
        Some(NetworkName::Testnet)
    } else if same_ignoring_ascii_case(s, "mainnet"@) {
        Some(NetworkName::Mainnet)
    } else if same_ignoring_ascii_case(s, "custom"@) {
        Some(NetworkName::Custom)
    } else {
        None
    }
}

/// The outcome of resolving the network `name` with the configured endpoint
/// and package identifier.
pub open spec fn resolve_named(
    name: NetworkName,
    node_url: Option<String>,
    seal_package: PackageIdSetting,
) -> Result<Network, NetworkError> {
    match name {
        NetworkName::Devnet => match seal_package {
            PackageIdSetting::Unset => Err(NetworkError::MissingRequiredIdentifier),
            PackageIdSetting::Malformed => Err(NetworkError::InvalidIdentifierFormat),
            PackageIdSetting::Parsed(id) => Ok(
                Network::Devnet { seal_package: SealPackage::Custom(id) },
            ),
        },
        NetworkName::Testnet => Ok(Network::Testnet),
        NetworkName::Mainnet => Ok(Network::Mainnet),
        NetworkName::Custom => match seal_package {
            PackageIdSetting::Malformed => Err(NetworkError::InvalidIdentifierFormat),
            PackageIdSetting::Unset => Ok(
                Network::Custom {
                    node_url,
                    use_default_mainnet_for_mvr: None,
                    seal_package: None,
                },
            ),
            PackageIdSetting::Parsed(id) => Ok(
                Network::Custom {
                    node_url,
                    use_default_mainnet_for_mvr: None,
                    seal_package: Some(SealPackage::Custom(id)),
                },
            ),
        },
    }
}

/// The package that network `n` trusts; a custom network without its own
/// package trusts the mainnet one.
pub open spec fn trusted_package(n: Network) -> SealPackage {
    match n {
        Network::Devnet { seal_package } => seal_package,
        Network::Testnet => SealPackage::Testnet,
        Network::Mainnet => SealPackage::Mainnet,
        Network::Custom { seal_package, .. } => match seal_package {
            Some(p) => p,
            None => SealPackage::Mainnet,
        },
    }
}

impl Network {
    /// The endpoint of the chain's full node.
    pub fn node_url(&self) -> (r: Result<String, NetworkError>)
        ensures
            *self is Devnet ==> r is Ok && r->Ok_0@ == "https://fullnode.devnet.sui.io:443"@,
            *self is Testnet ==> r is Ok && r->Ok_0@ == "https://fullnode.testnet.sui.io:443"@,
            *self is Mainnet ==> r is Ok && r->Ok_0@ == "https://fullnode.mainnet.sui.io:443"@,
            *self is Custom ==> match self->node_url {
                Some(u) => r == Ok::<String, NetworkError>(u),
                None => r == Err::<String, NetworkError>(NetworkError::MissingCustomEndpoint),
            },
    {
        match self {
            Network::Devnet { .. } => Ok("https://fullnode.devnet.sui.io:443".to_owned()),
            Network::Testnet => Ok("https://fullnode.testnet.sui.io:443".to_owned()),
            Network::Mainnet => Ok("https://fullnode.mainnet.sui.io:443".to_owned()),
            Network::Custom { node_url, .. } => match node_url {
                Some(u) => Ok(u.clone()),
                None => Err(NetworkError::MissingCustomEndpoint),
            },
        }
    }

    /// Resolves the network that `selector` names, ignoring ASCII case, with
    /// the endpoint and package identifier that the configuration gives.
    pub fn from_str(
        selector: &str,
        node_url: Option<String>,
        seal_package: PackageIdSetting,
    ) -> (r: Result<Network, NetworkError>)
        ensures
            match named_network(selector@) {
                Some(name) => r == resolve_named(name, node_url, seal_package),
                None => r matches Err(NetworkError::UnknownNetworkSelector(s)) && s@ == selector@,
            },
    {
        if eq_ignore_ascii_case(selector, "devnet") {
            match seal_package {
                PackageIdSetting::Unset => Err(NetworkError::MissingRequiredIdentifier),
                PackageIdSetting::Malformed => Err(NetworkError::InvalidIdentifierFormat),
                PackageIdSetting::Parsed(id) => Ok(
                    Network::Devnet { seal_package: SealPackage::Custom(id) },
                ),
            }
        } else if eq_ignore_ascii_case(selector, "testnet") {
            Ok(Network::Testnet)
        } else if eq_ignore_ascii_case(selector, "mainnet") {
            Ok(Network::Mainnet)
        } else if eq_ignore_ascii_case(selector, "custom") {
            let seal_package = match seal_package {
                PackageIdSetting::Unset => None,
                PackageIdSetting::Malformed => {
                    return Err(NetworkError::InvalidIdentifierFormat);
                },
                PackageIdSetting::Parsed(id) => Some(SealPackage::Custom(id)),
            };
            Ok(Network::Custom { node_url, use_default_mainnet_for_mvr: None, seal_package })
        } else {
            Err(NetworkError::UnknownNetworkSelector(selector.to_owned()))
        }
    }

    /// The package whose deployment this network trusts.
    pub fn get_seal_package(&self) -> (r: SealPackage)
        ensures
            r == trusted_package(*self),
    {
        match self {
            Network::Devnet { seal_package } => *seal_package,
            Network::Testnet => SealPackage::Testnet,
            Network::Mainnet => SealPackage::Mainnet,
            Network::Custom { seal_package, .. } => match seal_package {
                Some(p) => *p,
                None => SealPackage::Mainnet,
            },
        }
    }
}

} // verus!
