use vstd::prelude::*;

verus! {

/// Which Plaid deployment the client talks to.
#[derive(Debug, Clone)]
pub enum PlaidEnviorment {
    /// A stand-in server at the given address.
    Mock { url: String },
    Sandbox,
    Production,
}

impl PlaidEnviorment {
    /// The host of the deployment.
    pub open spec fn spec_uri(&self) -> Seq<char> {
        match self {
            PlaidEnviorment::Mock { url } => url@,
            PlaidEnviorment::Sandbox => "sandbox.plaid.com"@,
            PlaidEnviorment::Production => "plaid.com"@,
        }
    }

    pub fn uri(&self) -> (r: String)
        ensures
            r@ == self.spec_uri(),
    {
        match self {
            PlaidEnviorment::Mock { url } => url.clone(),
            PlaidEnviorment::Sandbox => "sandbox.plaid.com".to_owned(),
            PlaidEnviorment::Production => "plaid.com".to_owned(),
        }
    }
}

} // verus!
