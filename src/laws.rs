//! Properties of network resolution that hold for every input.

use vstd::prelude::*;
use crate::network::{
    named_network, resolve_named, trusted_package, Network, NetworkError, NetworkName,
    PackageIdSetting, ObjectId, SealPackage,
};
use crate::selector::{lower_code, same_ignoring_ascii_case};

verus! {

/// Selectors that differ only in the case of ASCII letters name the same
/// network, or both name none.
pub proof fn selector_case_insensitive(a: Seq<char>, b: Seq<char>)
    requires
        same_ignoring_ascii_case(a, b),
    ensures
        named_network(a) == named_network(b),
{
    assert forall|l: Seq<char>| #[trigger] same_ignoring_ascii_case(a, l)
        <==> same_ignoring_ascii_case(b, l) by {
        if same_ignoring_ascii_case(a, l) {
            assert forall|i: int| 0 <= i < b.len() implies #[trigger] lower_code(b[i])
                == lower_code(l[i]) by {
                assert(lower_code(a[i]) == lower_code(b[i]));
            }
        }
        if same_ignoring_ascii_case(b, l) {
            assert forall|i: int| 0 <= i < a.len() implies #[trigger] lower_code(a[i])
                == lower_code(l[i]) by {
                assert(lower_code(a[i]) == lower_code(b[i]));
            }
        }
    }
}

/// A selector that equals none of `devnet`, `testnet`, `mainnet`, `custom`,
/// ignoring ASCII case, names no network, so resolving it fails.
pub proof fn unknown_selector_rejected(s: Seq<char>)
    requires
        !same_ignoring_ascii_case(s, "devnet"@),
        !same_ignoring_ascii_case(s, "testnet"@),
        !same_ignoring_ascii_case(s, "mainnet"@),
        !same_ignoring_ascii_case(s, "custom"@),
    ensures
        named_network(s) is None,
{
}

/// Testnet and mainnet resolve whatever the configuration holds, and trust
/// their own fixed package.
pub proof fn fixed_networks_ignore_configuration(
    node_url: Option<String>,
    seal_package: PackageIdSetting,
)
    ensures
        resolve_named(NetworkName::Testnet, node_url, seal_package) == Ok::<
            Network,
            NetworkError,
        >(Network::Testnet),
        trusted_package(Network::Testnet) == SealPackage::Testnet,
        resolve_named(NetworkName::Mainnet, node_url, seal_package) == Ok::<
            Network,
            NetworkError,
        >(Network::Mainnet),
        trusted_package(Network::Mainnet) == SealPackage::Mainnet,
{
}

/// A custom network configured without a package trusts the mainnet package.
pub proof fn custom_without_package_trusts_mainnet(node_url: Option<String>)
    ensures
        resolve_named(NetworkName::Custom, node_url, PackageIdSetting::Unset) is Ok,
        trusted_package(
            resolve_named(NetworkName::Custom, node_url, PackageIdSetting::Unset)->Ok_0,
        ) == SealPackage::Mainnet,
{
}

/// A custom network configured with a valid package trusts exactly that package.
pub proof fn custom_package_override(node_url: Option<String>, id: ObjectId)
    ensures
        resolve_named(NetworkName::Custom, node_url, PackageIdSetting::Parsed(id)) is Ok,
        trusted_package(
            resolve_named(NetworkName::Custom, node_url, PackageIdSetting::Parsed(id))->Ok_0,
        ) == SealPackage::Custom(id),
{
}

/// Devnet does not resolve without a package identifier.
pub proof fn devnet_requires_package(node_url: Option<String>)
    ensures
        resolve_named(NetworkName::Devnet, node_url, PackageIdSetting::Unset) == Err::<
            Network,
            NetworkError,
        >(NetworkError::MissingRequiredIdentifier),
{
}

/// Devnet with a valid package identifier resolves and trusts exactly that package.
pub proof fn devnet_package(node_url: Option<String>, id: ObjectId)
    ensures
        resolve_named(NetworkName::Devnet, node_url, PackageIdSetting::Parsed(id)) is Ok,
        trusted_package(
            resolve_named(NetworkName::Devnet, node_url, PackageIdSetting::Parsed(id))->Ok_0,
        ) == SealPackage::Custom(id),
{
}

} // verus!
