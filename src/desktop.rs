//! Icon names from desktop entries.

use freedesktop_entry_parser::Entry;
use vstd::prelude::*;

verus! {

/// The values of attribute `key` in section `section` of the desktop entry
/// `text`: `None` where `text` does not parse or has no such section, an
/// empty sequence where the section lacks the attribute.
pub uninterp spec fn entry_values(text: Seq<u8>, section: Seq<char>, key: Seq<char>) -> Option<Seq<Seq<char>>>;

/// Relies on `freedesktop_entry_parser::Entry::parse`, to read the entry, and
/// on `Entry::get`, for the values of one attribute of one section: the result
/// depends on the three arguments alone.
#[verifier::external_body]
fn desktop_values(text: &[u8], section: &str, key: &str) -> (r: Option<Vec<String>>)
    ensures
        values_view(r) == entry_values(text@, section@, key@),
{
    let entry = Entry::parse(text).ok()?;
    entry.get(section, key).map(|v| v.to_vec())
}

/// The text of each string found, where any were.
pub open spec fn values_view(values: Option<Vec<String>>) -> Option<Seq<Seq<char>>> {
    match values {
        Some(v) => Some(v@.map_values(|s: String| s@)),
        None => None,
    }
}

/// The first of the values found, if there are any.
pub open spec fn first_value(values: Option<Seq<Seq<char>>>) -> Option<Seq<char>> {
    match values {
        Some(v) => if v.len() > 0 { Some(v[0]) } else { None },
        None => None,
    }
}

/// The name, relative to a data directory, of the desktop entry for `class`.
pub fn desktop_file_name(class: &str) -> (r: String)
    ensures
        r@ == "applications/"@ + class@ + ".desktop"@,
{
    let mut r = String::from_str("applications/");
    r.append(class);
    r.append(".desktop");
    r
}

/// The first of `values`, if there is one.
pub fn first_of(values: Option<Vec<String>>) -> (r: Option<String>)
    ensures
        r matches Some(s) ==> first_value(values_view(values)) == Some(s@),
        r is None ==> first_value(values_view(values)) is None,
{
    match values {
        Some(mut v) => {
            if v.len() > 0 {
                Some(v.swap_remove(0))
            } else {
                None
            }
        },
        None => None,
    }
}

/// The icon named by the `Icon` attribute of the `Desktop Entry` section of
/// the desktop entry `text`, if it has one.
pub fn get_icon_name(text: &[u8]) -> (r: Option<String>)
    ensures
        r matches Some(s) ==> first_value(entry_values(text@, "Desktop Entry"@, "Icon"@)) == Some(s@),
        r is None ==> first_value(entry_values(text@, "Desktop Entry"@, "Icon"@)) is None,
{
    let values = desktop_values(text, "Desktop Entry", "Icon");
    first_of(values)
}

} // verus!
