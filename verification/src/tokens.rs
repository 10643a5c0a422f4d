//! Credentials and the token-endpoint requests built from them.
//!
//! The vendor's token endpoint takes a grant type, the application key, and
//! one token parameter whose name depends on the grant type. Building that
//! request from the stored credentials is the decidable part of a token
//! exchange; performing the call and persisting what comes back is the
//! caller's.

use vstd::prelude::*;

verus! {

/// The access/refresh token pair as the credential store holds it. Right
/// after authorization the access slot holds the one-time authorization code
/// and the refresh slot is empty.
pub struct Tokens {
    pub access_token: String,
    pub refresh_token: String,
}

/// What the token endpoint returns on success.
pub struct TokenResponse {
    pub access_token: String,
    pub token_type: String,
    pub expires_in: u32,
    pub refresh_token: String,
    pub scope: String,
}

/// What the authorize endpoint returns: the PIN the operator registers in the
/// vendor portal, and the one-time code later exchanged for tokens.
pub struct AuthorizeResponse {
    pub ecobee_pin: String,
    pub expires_in: u32,
    pub code: String,
    pub scope: String,
    pub interval: u32,
}

/// The two authorization flows the token endpoint serves.
#[derive(Clone, Copy, Debug, PartialEq, Eq, Structural)]
pub enum GrantType {
    /// The initial exchange of the authorization code for a token pair.
    EcobeePin,
    /// The routine refresh of an existing token pair.
    RefreshToken,
}

/// One fully-determined token-endpoint request: the grant type and token
/// parameter under the names the endpoint expects, and the token to send.
pub struct TokenRequest {
    pub grant_type: String,
    pub token_param: String,
    pub token_value: String,
}

/// The name under which a grant type is sent.
pub open spec fn grant_type_name(g: GrantType) -> Seq<char> {
    match g {
        GrantType::EcobeePin => "ecobeePin"@,
        GrantType::RefreshToken => "refresh_token"@,
    }
}

/// The name of the token parameter each grant type takes: the pin flow sends
/// the authorization code, the refresh flow sends the refresh token.
pub open spec fn token_param_name(g: GrantType) -> Seq<char> {
    match g {
        GrantType::EcobeePin => "code"@,
        GrantType::RefreshToken => "refresh_token"@,
    }
}

/// Build the token-endpoint request for one grant type: the token parameter's
/// name follows the grant type, and the parameter's value is the token handed
/// in.
pub fn fetch_tokens(access_token: String, grant_type: GrantType) -> (req: TokenRequest)
    ensures
        req.grant_type@ == grant_type_name(grant_type),
        req.token_param@ == token_param_name(grant_type),
        req.token_value == access_token,
{
    match grant_type {
        GrantType::EcobeePin => TokenRequest {
            grant_type: String::from_str("ecobeePin"),
            token_param: String::from_str("code"),
            token_value: access_token,
        },
        GrantType::RefreshToken => TokenRequest {
            grant_type: String::from_str("refresh_token"),
            token_param: String::from_str("refresh_token"),
            token_value: access_token,
        },
    }
}

/// The routine token refresh: a refresh-grant request carrying the stored
/// refresh token.
pub fn refresh_tokens(tokens: &Tokens) -> (req: TokenRequest)
    ensures
        req.grant_type@ == grant_type_name(GrantType::RefreshToken),
        req.token_param@ == token_param_name(GrantType::RefreshToken),
        req.token_value == tokens.refresh_token,
{
    fetch_tokens(tokens.refresh_token.clone(), GrantType::RefreshToken)
}

/// The initial token exchange, made soon after authorization: a pin-grant
/// request carrying the stored authorization code, which the store keeps in
/// the access slot until the exchange succeeds.
pub fn get_tokens_with_code(tokens: &Tokens) -> (req: TokenRequest)
    ensures
        req.grant_type@ == grant_type_name(GrantType::EcobeePin),
        req.token_param@ == token_param_name(GrantType::EcobeePin),
        req.token_value == tokens.access_token,
{
    fetch_tokens(tokens.access_token.clone(), GrantType::EcobeePin)
}

} // verus!
