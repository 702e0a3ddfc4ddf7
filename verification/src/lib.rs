//! Verified core of the e-transfer payment gateway: the payment and user
//! models, their storage mappings, the webhook and page decisions of the
//! gateway, and the small helpers the gateway builds links and requests with.

pub mod crypto;
pub mod domain;
pub mod entities;
pub mod gateway;
pub mod ids;
pub mod legacy;
pub mod payment_manager;
pub mod plaid;
pub mod store;
pub mod text;
pub mod time;
