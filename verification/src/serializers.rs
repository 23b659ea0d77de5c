//! The records that the REST API answers with, as far as they hold no
//! fractional numbers.

use std::collections::HashMap;
use vstd::prelude::*;

verus! {

/// The envelope of every answer: the payload under `data`.
#[derive(Debug, Clone)]
pub struct Data<T> {
    pub data: T,
}

/// A session as the login hands it out.
#[derive(Debug, Clone)]
pub struct UserSession {
    pub api_key: String,
    pub public_token: String,
    pub login_time: String,
    pub user_name: String,
    pub user_shortname: String,
    pub avatar_url: Option<String>,
    pub user_type: String,
    pub email: String,
    pub phone: Option<String>,
    pub broker: String,
    pub products: Vec<String>,
    pub order_types: Vec<String>,
    pub exchanges: Vec<String>,
    pub user_id: String,
    pub access_token: String,
    pub refresh_token: Option<String>,
}

/// The tokens of a renewed session.
#[derive(Debug, Clone)]
pub struct UserSessionTokens {
    pub user_id: String,
    pub access_token: String,
    pub refresh_token: Option<String>,
}

/// The profile of a user.
#[derive(Debug, Clone)]
pub struct UserProfile {
    pub user_name: String,
    pub user_shortname: String,
    pub avatar_url: Option<String>,
    pub user_type: String,
    pub email: String,
    pub phone: String,
    pub broker: String,
    pub products: Vec<String>,
    pub order_types: Vec<String>,
    pub exchanges: Vec<String>,
}

/// The answer to an order that was placed, modified or cancelled.
#[derive(Debug, Clone)]
pub struct OrderResponse {
    pub order_id: String,
}

/// The answer to a mutual-fund order.
#[derive(Debug, Clone)]
pub struct MFOrderResponse {
    pub order_id: String,
}

/// The answer to a mutual-fund SIP that was placed.
#[derive(Debug, Clone)]
pub struct MFSIPResponse {
    pub order_id: String,
    pub sip_id: String,
}

/// Quotes by instrument, as `exchange:tradingsymbol`.
#[derive(Debug, Clone)]
pub struct Quote<U> {
    pub quote: HashMap<String, U>,
}

} // verus!
