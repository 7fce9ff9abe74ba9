//! The password gate of the subscription panel.

use vstd::prelude::*;
use vstd::string::*;

verus! {

/// Whether a visitor may use the panel: their password cookie must be there
/// and hold exactly the configured password.
pub fn correct_password(cookie: Option<&String>, password: &String) -> (granted: bool)
    ensures
        granted == (cookie matches Some(value) && value@ == password@),
{
    match cookie {
        Some(value) => *value == *password,
        None => false,
    }
}

} // verus!
