//! Customer information, as the account endpoint reports it.

use vstd::prelude::*;

verus! {

/// What the customer information endpoint may reveal about the account
/// holder. Every field is optional; the service omits what it does not
/// share.
#[derive(Debug, Clone)]
pub struct CustomerInformation {
    /// Full display name.
    pub name: Option<String>,
    /// Given name.
    pub given_name: Option<String>,
    /// Account email address.
    pub email: Option<String>,
}

impl CustomerInformation {
    /// Information with every field absent, to be filled from a response.
    pub fn empty() -> (r: Self)
        ensures
            r.name is None,
            r.given_name is None,
            r.email is None,
    {
        CustomerInformation { name: None, given_name: None, email: None }
    }
}

} // verus!
