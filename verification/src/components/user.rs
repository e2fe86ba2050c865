//! A card that presents a user: how it is configured, and the texts worked
//! out from the user's data.

use vstd::prelude::*;

verus! {

/// What a user card shows, and in which theme.
#[derive(Debug, Clone, PartialEq)]
pub struct CardConfig {
    pub theme: String,
    pub show_email: bool,
    pub show_role: bool,
}

impl Default for CardConfig {
    /// A card is light and shows everything unless told otherwise.
    fn default() -> (r: Self)
        ensures
            r.theme@ == "light"@,
            r.show_email,
            r.show_role,
    {
        CardConfig { theme: String::from_str("light"), show_email: true, show_role: true }
    }
}

/// The CSS classes of a card in the given theme.
pub fn card_class(theme: &str) -> (r: String)
    ensures
        r@ == "user-card theme-"@ + theme@,
{
    String::from_str("user-card theme-").concat(theme)
}

/// The uppercase form of a character, as the standard library computes it.
/// It may be longer than one character.
pub uninterp spec fn uppercase(c: char) -> Seq<char>;

/// Calls `char::to_uppercase` and collects the characters it yields. The contract
/// only names the result: the uppercase form depends on the character
/// alone.
#[verifier::external_body]
fn to_uppercase(c: char) -> (r: String)
    ensures
        r@ == uppercase(c),
{
    c.to_uppercase().collect()
}

/// The character that stands for a name where no picture does: the first
/// of the name, or a question mark for an empty name.
pub open spec fn leading_char(name: Seq<char>) -> char {
    if name.len() > 0 {
        name[0]
    } else {
        '?'
    }
}

/// The initial shown in place of a picture: the first character of the
/// name in uppercase, or of a question mark where the name is empty.
pub fn name_initial(name: &str) -> (r: String)
    ensures
        r@ == uppercase(leading_char(name@)),
{
    let first = if name.is_empty() {
        '?'
    } else {
        name.get_char(0)
    };
    to_uppercase(first)
}

} // verus!
