//! The identity context the client acts under.
//!
//! Authorization itself happens elsewhere; this module only models what the
//! rest of the core reads from it: an access token with its expiry, the
//! device identifiers that key derivation concatenates, the account
//! identifier, and the marketplace locale that endpoint URLs are built from.

use vstd::prelude::*;

verus! {

/// A marketplace the client talks to.
#[derive(Debug, Clone)]
pub struct Locale {
    /// Human-readable marketplace name.
    pub name: String,
    /// Site domain, such as `audible.com`.
    pub domain: String,
    /// Two-letter country code.
    pub country_code: String,
}

impl Locale {
    /// The United States marketplace.
    pub fn us() -> (r: Locale)
        ensures
            r.name@ == "United States"@,
            r.domain@ == "audible.com"@,
            r.country_code@ == "us"@,
    {
        Locale {
            name: "United States".to_owned(),
            domain: "audible.com".to_owned(),
            country_code: "us".to_owned(),
        }
    }

    /// The United Kingdom marketplace.
    pub fn uk() -> (r: Locale)
        ensures
            r.name@ == "United Kingdom"@,
            r.domain@ == "audible.co.uk"@,
            r.country_code@ == "uk"@,
    {
        Locale {
            name: "United Kingdom".to_owned(),
            domain: "audible.co.uk".to_owned(),
            country_code: "uk".to_owned(),
        }
    }

    /// The German marketplace.
    pub fn de() -> (r: Locale)
        ensures
            r.name@ == "Germany"@,
            r.domain@ == "audible.de"@,
            r.country_code@ == "de"@,
    {
        Locale {
            name: "Germany".to_owned(),
            domain: "audible.de".to_owned(),
            country_code: "de".to_owned(),
        }
    }

    /// The French marketplace.
    pub fn fr() -> (r: Locale)
        ensures
            r.name@ == "France"@,
            r.domain@ == "audible.fr"@,
            r.country_code@ == "fr"@,
    {
        Locale {
            name: "France".to_owned(),
            domain: "audible.fr".to_owned(),
            country_code: "fr".to_owned(),
        }
    }

    /// The API base URL of this marketplace.
    pub fn api_url(&self) -> (r: String)
        ensures
            r@ == "https://api."@ + self.domain@,
    {
        let mut out = "https://api.".to_owned();
        out.append(self.domain.as_str());
        out
    }
}

/// A bearer token with its expiry, in milliseconds of the caller's clock.
#[derive(Debug, Clone)]
pub struct AccessToken {
    /// The token text.
    pub token: String,
    /// The moment the token stops being valid.
    pub expires_at_ms: u64,
}

/// Everything the core reads from an authenticated registration.
#[derive(Debug, Clone)]
pub struct Identity {
    /// Current access token.
    pub access_token: AccessToken,
    /// Device type identifier, one input of key derivation.
    pub device_type: String,
    /// Device serial number, one input of key derivation.
    pub device_serial_number: String,
    /// Account identifier, one input of key derivation.
    pub amazon_account_id: String,
    /// Marketplace the identity is registered with.
    pub locale: Locale,
}

impl Identity {
    /// Whether the access token has expired at `now_ms`.
    pub fn is_expired(&self, now_ms: u64) -> (r: bool)
        ensures
            r == (now_ms >= self.access_token.expires_at_ms),
    {
        now_ms >= self.access_token.expires_at_ms
    }
}

/// One account known to the client, with or without an identity attached.
#[derive(Debug, Clone)]
pub struct Account {
    /// Stable account identifier.
    pub account_id: String,
    /// Friendly display name.
    pub account_name: String,
    /// Stored activation bytes, as eight hexadecimal characters, or empty
    /// while none have been retrieved.
    pub decrypt_key: String,
    /// Authenticated identity, where registration has happened.
    pub identity: Option<Identity>,
}

impl Account {
    /// A fresh account with no name, no decryption key and no identity.
    pub fn new(account_id: String) -> (r: Account)
        ensures
            r.account_id@ == account_id@,
            r.account_name@.len() == 0,
            r.decrypt_key@.len() == 0,
            r.identity is None,
    {
        Account {
            account_id,
            account_name: String::new(),
            decrypt_key: String::new(),
            identity: None,
        }
    }

    /// Sets the display name.
    pub fn set_account_name(&mut self, name: String)
        ensures
            final(self).account_name@ == name@,
            final(self).account_id == old(self).account_id,
            final(self).decrypt_key == old(self).decrypt_key,
            final(self).identity == old(self).identity,
    {
        self.account_name = name;
    }

    /// Attaches an identity.
    pub fn set_identity(&mut self, identity: Identity)
        ensures
            final(self).identity == Some(identity),
            final(self).account_id == old(self).account_id,
            final(self).account_name == old(self).account_name,
            final(self).decrypt_key == old(self).decrypt_key,
    {
        self.identity = Some(identity);
    }

    /// Stores retrieved activation bytes.
    pub fn set_decrypt_key(&mut self, key: String)
        ensures
            final(self).decrypt_key@ == key@,
            final(self).account_id == old(self).account_id,
            final(self).account_name == old(self).account_name,
            final(self).identity == old(self).identity,
    {
        self.decrypt_key = key;
    }

    /// Whether the account cannot act without a token refresh: it has no
    /// identity, or the identity's token has expired at `now_ms`.
    pub fn needs_token_refresh(&self, now_ms: u64) -> (r: bool)
        ensures
            r == match self.identity {
                Option::None => true,
                Option::Some(id) => now_ms >= id.access_token.expires_at_ms,
            },
    {
        match &self.identity {
            None => true,
            Some(id) => id.is_expired(now_ms),
        }
    }
}

} // verus!
