//! Decisions behind the service's pages.
use vstd::prelude::*;
use crate::text::same_text;

verus! {

/// The scolding the "Thomas" page finishes its sentence with, chosen by the page's
/// path segment.
pub open spec fn spec_thomas_message(message: Seq<char>) -> Seq<char> {
    if message == "delete"@ {
        "mijn account moet verwijderen thomas!"@
    } else if message == "admin"@ {
        "mijn adminrechten mag verwijderen thomas!"@
    } else {
        "wat voor shit je ook aan het doen bent doen."@
    }
}

/// The end of the sentence on the "Thomas" page for the path segment `message`:
/// `delete` and `admin` name what was attempted, anything else gets a general remark.
pub fn thomas_message(message: &str) -> (r: &'static str)
    ensures
        r@ == spec_thomas_message(message@),
{
    if same_text(message, "delete") {
        "mijn account moet verwijderen thomas!"
    } else if same_text(message, "admin") {
        "mijn adminrechten mag verwijderen thomas!"
    } else {
        "wat voor shit je ook aan het doen bent doen."
    }
}

} // verus!
