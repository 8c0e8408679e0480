//! How the services write their logs.

use crate::text::{
    ascii_lower, is_ascii_text, same_text, to_lowercase, trim, trimmed, unicode_lowercase,
};
use vstd::prelude::*;

verus! {

/// Whether a setting, in small letters, switches something on.
pub open spec fn affirmative(setting: Seq<char>) -> bool {
    setting == "true"@ || setting == "1"@ || setting == "yes"@ || setting == "on"@
}

/// Whether a setting, in small letters, switches something on.
pub fn is_affirmative(setting: &str) -> (yes: bool)
    ensures
        yes == affirmative(setting@),
{
    same_text(setting, "true") || same_text(setting, "1") || same_text(setting, "yes")
        || same_text(setting, "on")
}

/// Whether a setting asks for colours; a setting that is not there leaves it open.
pub fn ansi_choice(setting: Option<&str>) -> (choice: Option<bool>)
    ensures
        choice == (match setting {
            Some(value) => Some(affirmative(unicode_lowercase(trimmed(value@)))),
            None => None,
        }),
        setting is Some && is_ascii_text(trimmed(setting->0@)) ==> choice == Some(
            affirmative(trimmed(setting->0@).map_values(|c: char| ascii_lower(c))),
        ),
{
    match setting {
        Some(value) => {
            let lower = to_lowercase(trim(value).as_str());
            Some(is_affirmative(lower.as_str()))
        },
        None => None,
    }
}

} // verus!
