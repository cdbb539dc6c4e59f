use vstd::prelude::*;

verus! {

/// Who initiated the request on whose behalf the operation runs.
#[derive(Clone, Copy, Debug, PartialEq, Eq, Structural)]
pub enum AuthFlow {
    Merchant,
    Customer,
}

/// The authenticated identity of a request. Only a successful strategy
/// resolution makes one; it is read-only afterwards.
pub struct AuthContext {
    merchant_id: String,
    auth_flow: AuthFlow,
}

pub struct AuthContextView {
    pub merchant_id: Seq<char>,
    pub auth_flow: AuthFlow,
}

impl View for AuthContext {
    type V = AuthContextView;

    closed spec fn view(&self) -> AuthContextView {
        AuthContextView { merchant_id: self.merchant_id@, auth_flow: self.auth_flow }
    }
}

impl AuthContext {
    pub fn merchant_id(&self) -> (r: &String)
        ensures
            r@ == self@.merchant_id,
    {
        &self.merchant_id
    }

    pub fn auth_flow(&self) -> (r: AuthFlow)
        ensures
            r == self@.auth_flow,
    {
        self.auth_flow
    }
}

/// A merchant account as the identity store returns it for a credential.
pub struct MerchantRecord {
    pub merchant_id: String,
    pub active: bool,
}

/// Why a strategy refused a request.
#[derive(Clone, Copy, Debug, PartialEq, Eq, Structural)]
pub enum AuthFailure {
    /// The request carries no credential, or an empty one.
    MissingCredential,
    /// No merchant account answers to the credential.
    InvalidCredential,
    /// The credential belongs to a deactivated account.
    DeactivatedAccount,
}

impl AuthFailure {
    pub fn detail(&self) -> (r: String)
        ensures
            r@ == failure_detail(*self),
    {
        match self {
            AuthFailure::MissingCredential => "API key not provided".to_owned(),
            AuthFailure::InvalidCredential => "API key is invalid".to_owned(),
            AuthFailure::DeactivatedAccount => "Merchant account is deactivated".to_owned(),
        }
    }
}

pub open spec fn failure_detail(f: AuthFailure) -> Seq<char> {
    match f {
        AuthFailure::MissingCredential => "API key not provided"@,
        AuthFailure::InvalidCredential => "API key is invalid"@,
        AuthFailure::DeactivatedAccount => "Merchant account is deactivated"@,
    }
}

/// The interchangeable ways of authenticating a request, chosen per endpoint.
#[derive(Clone, Copy, Debug, PartialEq, Eq, Structural)]
pub enum AuthStrategy {
    /// A merchant's secret API key.
    ApiKey,
    /// A publishable key, used by customer-initiated calls.
    Publishable,
}

pub open spec fn strategy_flow(s: AuthStrategy) -> AuthFlow {
    match s {
        AuthStrategy::ApiKey => AuthFlow::Merchant,
        AuthStrategy::Publishable => AuthFlow::Customer,
    }
}

/// What resolving a credential against the store's answer yields.
pub open spec fn resolution(
    s: AuthStrategy,
    credential: Option<Seq<char>>,
    record: Option<(Seq<char>, bool)>,
) -> Result<AuthContextView, AuthFailure> {
    match credential {
        None => Err(AuthFailure::MissingCredential),
        Some(c) => if c.len() == 0 {
            Err(AuthFailure::MissingCredential)
        } else {
            match record {
                None => Err(AuthFailure::InvalidCredential),
                Some((id, active)) => if !active {
                    Err(AuthFailure::DeactivatedAccount)
                } else {
                    Ok(AuthContextView { merchant_id: id, auth_flow: strategy_flow(s) })
                },
            }
        },
    }
}

pub open spec fn credential_view(c: Option<String>) -> Option<Seq<char>> {
    match c {
        None => None,
        Some(s) => Some(s@),
    }
}

pub open spec fn record_view(r: Option<MerchantRecord>) -> Option<(Seq<char>, bool)> {
    match r {
        None => None,
        Some(m) => Some((m.merchant_id@, m.active)),
    }
}

pub open spec fn resolved_as(r: Result<AuthContext, AuthFailure>, v: Result<AuthContextView, AuthFailure>) -> bool {
    match r {
        Ok(ctx) => v == Ok::<AuthContextView, AuthFailure>(ctx@),
        Err(f) => v == Err::<AuthContextView, AuthFailure>(f),
    }
}

impl AuthStrategy {
    pub fn auth_flow(&self) -> (r: AuthFlow)
        ensures
            r == strategy_flow(*self),
    {
        match self {
            AuthStrategy::ApiKey => AuthFlow::Merchant,
            AuthStrategy::Publishable => AuthFlow::Customer,
        }
    }

    /// Resolves the credential that the request carried, given the merchant
    /// account that the identity store found for it (if any).
    pub fn resolve(&self, credential: Option<String>, record: Option<MerchantRecord>) -> (r: Result<
        AuthContext,
        AuthFailure,
    >)
        ensures
            resolved_as(r, resolution(*self, credential_view(credential), record_view(record))),
    {
        match credential {
            None => Err(AuthFailure::MissingCredential),
            Some(c) => {
                if c.as_str().is_empty() {
                    return Err(AuthFailure::MissingCredential);
                }
                match record {
                    None => Err(AuthFailure::InvalidCredential),
                    Some(m) => {
                        if !m.active {
                            Err(AuthFailure::DeactivatedAccount)
                        } else {
                            Ok(AuthContext { merchant_id: m.merchant_id, auth_flow: self.auth_flow() })
                        }
                    },
                }
            },
        }
    }
}

} // verus!
