//! Authentication of outgoing requests.

use vstd::prelude::*;
use crate::client::error::Error;
use crate::text::{joined3, trim, trim_spec};

verus! {

/// Authentication configuration applied to outgoing requests.
#[derive(Debug, Clone, PartialEq, Eq)]
pub enum AuthConfig {
    /// No authentication.
    Anonymous,
    /// Bearer token authentication.
    Bearer { token: String },
    /// HTTP Basic authentication.
    Basic { username: String, password: String },
    /// Static header authentication for gateways or custom proxies.
    Header { name: String, value: String },
}

impl Default for AuthConfig {
    fn default() -> (r: Self)
        ensures
            r == AuthConfig::Anonymous,
    {
        AuthConfig::Anonymous
    }
}

impl AuthConfig {
    /// Why the configuration is rejected, if it is.
    pub open spec fn rejection(self) -> Option<Seq<char>> {
        match self {
            AuthConfig::Anonymous => None,
            AuthConfig::Bearer { token } => if trim_spec(token@).len() == 0 {
                Some("auth bearer token must not be empty"@)
            } else {
                None
            },
            AuthConfig::Basic { username, .. } => if trim_spec(username@).len() == 0 {
                Some("auth basic username must not be empty"@)
            } else {
                None
            },
            AuthConfig::Header { name, value } => if trim_spec(name@).len() == 0 {
                Some("auth header name must not be empty"@)
            } else if trim_spec(value@).len() == 0 {
                Some("auth header value must not be empty"@)
            } else {
                None
            },
        }
    }

    /// Checks that what identifies the caller is not empty.
    pub fn validate(&self) -> (r: Result<(), Error>)
        ensures
            match r {
                Ok(_) => self.rejection() is None,
                Err(Error::InvalidArgument(m)) => self.rejection() == Some(m@),
                Err(_) => false,
            },
    {
        match self {
            AuthConfig::Anonymous => Ok(()),
            AuthConfig::Bearer { token } => {
                if trim(token.as_str()).is_empty() {
                    return Err(Error::invalid_argument("auth bearer token must not be empty"));
                }
                Ok(())
            },
            AuthConfig::Basic { username, .. } => {
                if trim(username.as_str()).is_empty() {
                    return Err(Error::invalid_argument("auth basic username must not be empty"));
                }
                Ok(())
            },
            AuthConfig::Header { name, value } => {
                if trim(name.as_str()).is_empty() {
                    return Err(Error::invalid_argument("auth header name must not be empty"));
                }
                if trim(value.as_str()).is_empty() {
                    return Err(Error::invalid_argument("auth header value must not be empty"));
                }
                Ok(())
            },
        }
    }

    /// The kind of authentication, without its secrets.
    pub open spec fn text(self) -> Seq<char> {
        match self {
            AuthConfig::Anonymous => "none"@,
            AuthConfig::Bearer { .. } => "bearer"@,
            AuthConfig::Basic { .. } => "basic"@,
            AuthConfig::Header { name, .. } => "header("@ + name@ + ")"@,
        }
    }

    /// The kind of authentication, without its secrets.
    pub fn to_string(&self) -> (r: String)
        ensures
            r@ == self.text(),
    {
        match self {
            AuthConfig::Anonymous => "none".to_owned(),
            AuthConfig::Bearer { .. } => "bearer".to_owned(),
            AuthConfig::Basic { .. } => "basic".to_owned(),
            AuthConfig::Header { name, .. } => joined3("header(", name.as_str(), ")"),
        }
    }

    /// The name of the kind in diagnostics.
    pub open spec fn kind_name(self) -> Seq<char> {
        match self {
            AuthConfig::Anonymous => "none"@,
            AuthConfig::Bearer { .. } => "bearer"@,
            AuthConfig::Basic { .. } => "basic"@,
            AuthConfig::Header { .. } => "header"@,
        }
    }
}

/// The name of the kind of authentication in diagnostics.
pub fn auth_type(auth: &AuthConfig) -> (r: &'static str)
    ensures
        r@ == auth.kind_name(),
{
    match auth {
        AuthConfig::Anonymous => "none",
        AuthConfig::Bearer { .. } => "bearer",
        AuthConfig::Basic { .. } => "basic",
        AuthConfig::Header { .. } => "header",
    }
}

/// What is shown of a bearer token, or of the basic or header secret, does not depend on
/// the secret.
pub proof fn law_secrets_are_not_shown(a: AuthConfig, b: AuthConfig)
    requires
        a is Bearer && b is Bearer || a is Basic && b is Basic || (a is Header && b is Header
            && a->name == b->name),
    ensures
        a.text() == b.text(),
{
}

/// Whether a text is blank.
pub open spec fn is_blank_text(s: Seq<char>) -> bool {
    trim_spec(s).len() == 0
}

/// Authentication is accepted exactly where nothing that identifies the caller is blank; a password
/// may be.
pub proof fn law_callers_are_identified(a: AuthConfig)
    ensures
        a.rejection() is None <==> match a {
            AuthConfig::Anonymous => true,
            AuthConfig::Bearer { token } => !is_blank_text(token@),
            AuthConfig::Basic { username, .. } => !is_blank_text(username@),
            AuthConfig::Header { name, value } => !is_blank_text(name@) && !is_blank_text(value@),
        },
{
}

/// What is shown of authentication begins with the name of its kind, which tells the kinds apart,
/// and shows the name of a header.
pub proof fn law_shown_authentication_tells_its_kind(a: AuthConfig, b: AuthConfig)
    ensures
        a.kind_name().is_prefix_of(a.text()),
        a matches AuthConfig::Header { name, .. } ==> a.text() == "header("@ + name@ + ")"@,
        !(a is Header) ==> a.text() == a.kind_name(),
        a.kind_name() == b.kind_name() <==> (a is Anonymous && b is Anonymous || a is Bearer
            && b is Bearer || a is Basic && b is Basic || a is Header && b is Header),
{
    reveal_strlit("none");
    reveal_strlit("bearer");
    reveal_strlit("basic");
    reveal_strlit("header");
    reveal_strlit("header(");
    assert("bearer"@[0] == 'b' && "header"@[0] == 'h');
    if let AuthConfig::Header { name, .. } = a {
        assert("header("@ =~= "header"@ + seq!['(']);
        assert(a.text().take(6) =~= "header"@);
    }
    assert(a.text().take(a.kind_name().len() as int) =~= a.kind_name());
}

} // verus!
