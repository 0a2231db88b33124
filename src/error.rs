//! The error taxonomy of the client.

use vstd::prelude::*;
use vstd::string::*;

verus! {

/// What went wrong. Variants that carry text hold a detail message.
#[derive(Debug, Clone)]
pub enum WebullError {
    RequestError(String),
    JsonError(String),
    IoError(String),
    AuthenticationError(String),
    InvalidCredentials,
    MfaRequired,
    InvalidMfaCode,
    SessionExpired,
    RateLimitExceeded,
    InvalidParameter(String),
    ApiError(String),
    TradeTokenNotAvailable,
    AccountNotFound,
    OrderNotFound,
    InsufficientFunds,
    MarketClosed,
    SymbolNotFound(String),
    WebSocketError(String),
    MqttError(String),
    SerializationError(String),
    DeviceIdError(String),
    ParseError(String),
    Unknown(String),
}

/// The human-readable text of an error.
pub open spec fn error_text(e: WebullError) -> Seq<char> {
    match e {
        WebullError::RequestError(m) => "HTTP request failed: "@ + m@,
        WebullError::JsonError(m) => "JSON parsing failed: "@ + m@,
        WebullError::IoError(m) => "IO error: "@ + m@,
        WebullError::AuthenticationError(m) => "Authentication failed: "@ + m@,
        WebullError::InvalidCredentials => "Invalid credentials"@,
        WebullError::MfaRequired => "MFA required"@,
        WebullError::InvalidMfaCode => "Invalid MFA code"@,
        WebullError::SessionExpired => "Session expired"@,
        WebullError::RateLimitExceeded => "Rate limit exceeded"@,
        WebullError::InvalidParameter(m) => "Invalid parameter: "@ + m@,
        WebullError::ApiError(m) => "API error: "@ + m@,
        WebullError::TradeTokenNotAvailable => "Trade token not available"@,
        WebullError::AccountNotFound => "Account not found"@,
        WebullError::OrderNotFound => "Order not found"@,
        WebullError::InsufficientFunds => "Insufficient funds"@,
        WebullError::MarketClosed => "Market closed"@,
        WebullError::SymbolNotFound(m) => "Symbol not found: "@ + m@,
        WebullError::WebSocketError(m) => "WebSocket error: "@ + m@,
        WebullError::MqttError(m) => "MQTT error: "@ + m@,
        WebullError::SerializationError(m) => "Serialization error: "@ + m@,
        WebullError::DeviceIdError(m) => "Device ID error: "@ + m@,
        WebullError::ParseError(m) => "Parse error: "@ + m@,
        WebullError::Unknown(m) => "Unknown error: "@ + m@,
    }
}

impl WebullError {
    /// The human-readable text of this error.
    pub fn message(&self) -> (r: String)
        ensures
            r@ == error_text(*self),
    {
        match self {
            WebullError::RequestError(m) => {
                let mut s = String::from_str("HTTP request failed: ");
                s.append(m.as_str());
                s
            },
            WebullError::JsonError(m) => {
                let mut s = String::from_str("JSON parsing failed: ");
                s.append(m.as_str());
                s
            },
            WebullError::IoError(m) => {
                let mut s = String::from_str("IO error: ");
                s.append(m.as_str());
                s
            },
            WebullError::AuthenticationError(m) => {
                let mut s = String::from_str("Authentication failed: ");
                s.append(m.as_str());
                s
            },
            WebullError::InvalidCredentials => String::from_str("Invalid credentials"),
            WebullError::MfaRequired => String::from_str("MFA required"),
            WebullError::InvalidMfaCode => String::from_str("Invalid MFA code"),
            WebullError::SessionExpired => String::from_str("Session expired"),
            WebullError::RateLimitExceeded => String::from_str("Rate limit exceeded"),
            WebullError::InvalidParameter(m) => {
                let mut s = String::from_str("Invalid parameter: ");
                s.append(m.as_str());
                s
            },
            WebullError::ApiError(m) => {
                let mut s = String::from_str("API error: ");
                s.append(m.as_str());
                s
            },
            WebullError::TradeTokenNotAvailable => String::from_str("Trade token not available"),
            WebullError::AccountNotFound => String::from_str("Account not found"),
            WebullError::OrderNotFound => String::from_str("Order not found"),
            WebullError::InsufficientFunds => String::from_str("Insufficient funds"),
            WebullError::MarketClosed => String::from_str("Market closed"),
            WebullError::SymbolNotFound(m) => {
                let mut s = String::from_str("Symbol not found: ");
                s.append(m.as_str());
                s
            },
            WebullError::WebSocketError(m) => {
                let mut s = String::from_str("WebSocket error: ");
                s.append(m.as_str());
                s
            },
            WebullError::MqttError(m) => {
                let mut s = String::from_str("MQTT error: ");
                s.append(m.as_str());
                s
            },
            WebullError::SerializationError(m) => {
                let mut s = String::from_str("Serialization error: ");
                s.append(m.as_str());
                s
            },
            WebullError::DeviceIdError(m) => {
                let mut s = String::from_str("Device ID error: ");
                s.append(m.as_str());
                s
            },
            WebullError::ParseError(m) => {
                let mut s = String::from_str("Parse error: ");
                s.append(m.as_str());
                s
            },
            WebullError::Unknown(m) => {
                let mut s = String::from_str("Unknown error: ");
                s.append(m.as_str());
                s
            },
        }
    }

    /// Whether this error asks the user to obtain a trade token again.
    pub fn needs_trade_elevation(&self) -> (r: bool)
        ensures
            r == (*self is TradeTokenNotAvailable),
    {
        match self {
            WebullError::TradeTokenNotAvailable => true,
            _ => false,
        }
    }
}

} // verus!
