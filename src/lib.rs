//! Resolution of the network a key server talks to and of the seal package
//! it trusts to authorize decryption requests.

pub mod laws;
pub mod network;
pub mod selector;

pub use network::{
    named_network, resolve_named, trusted_package, Network, NetworkError, NetworkName, ObjectId,
    PackageIdSetting, SealPackage,
};
pub use selector::{eq_ignore_ascii_case, lower_code, same_ignoring_ascii_case};
