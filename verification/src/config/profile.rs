//! Deployment profiles.

use vstd::prelude::*;
use crate::text::{ascii_lower_spec, same, to_ascii_lowercase, trim, trim_spec};

verus! {

/// Typed profile selection for config loading.
#[derive(Debug, Clone, PartialEq, Eq)]
pub enum DeploymentProfile {
    /// Minimal HTTP profile with the built-in defaults.
    Default,
    /// Loopback development profile.
    Dev,
    /// Production profile for externally terminated TLS.
    Prod,
    /// Production profile with server-side TLS termination.
    ProdTls,
    /// Production profile requiring client TLS certificates.
    ProdMtls,
    /// Custom profile name selecting an additional TOML file.
    Named(String),
}

impl DeploymentProfile {
    /// The name of the profile.
    pub open spec fn label(self) -> Seq<char> {
        match self {
            DeploymentProfile::Default => "default"@,
            DeploymentProfile::Dev => "dev"@,
            DeploymentProfile::Prod => "prod"@,
            DeploymentProfile::ProdTls => "prod-tls"@,
            DeploymentProfile::ProdMtls => "prod-mtls"@,
            DeploymentProfile::Named(name) => name@,
        }
    }

    /// Profile name used to select the corresponding TOML file.
    #[must_use]
    pub fn as_str(&self) -> (r: &str)
        ensures
            r@ == self.label(),
    {
        match self {
            DeploymentProfile::Default => "default",
            DeploymentProfile::Dev => "dev",
            DeploymentProfile::Prod => "prod",
            DeploymentProfile::ProdTls => "prod-tls",
            DeploymentProfile::ProdMtls => "prod-mtls",
            DeploymentProfile::Named(name) => name.as_str(),
        }
    }

    /// Whether this is one of the profiles for production.
    pub open spec fn is_prod(self) -> bool {
        self is Prod || self is ProdTls || self is ProdMtls
    }

    /// Whether this is the profile that a name selects, surrounding white space and the case
    /// of letters aside.
    pub open spec fn is_selected_by(self, raw: Seq<char>) -> bool {
        let name = ascii_lower_spec(trim_spec(raw));
        if name == ""@ || name == "default"@ {
            self is Default
        } else if name == "dev"@ {
            self is Dev
        } else if name == "prod"@ {
            self is Prod
        } else if name == "prod-tls"@ {
            self is ProdTls
        } else if name == "prod-mtls"@ {
            self is ProdMtls
        } else {
            self is Named && self.label() == name
        }
    }

    /// The profile that a name selects.
    pub fn select(raw: &str) -> (r: Self)
        ensures
            r.is_selected_by(raw@),
    {
        let name = to_ascii_lowercase(trim(raw));
        if same(name.as_str(), "") || same(name.as_str(), "default") {
            DeploymentProfile::Default
        } else if same(name.as_str(), "dev") {
            DeploymentProfile::Dev
        } else if same(name.as_str(), "prod") {
            DeploymentProfile::Prod
        } else if same(name.as_str(), "prod-tls") {
            DeploymentProfile::ProdTls
        } else if same(name.as_str(), "prod-mtls") {
            DeploymentProfile::ProdMtls
        } else {
            DeploymentProfile::Named(name)
        }
    }
}

} // verus!
