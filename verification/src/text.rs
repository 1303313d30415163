//! What the library takes on trust about `str`, and the joining of names.

use vstd::prelude::*;

verus! {

/// `==` on `str`, which std documents as equality of the contents.
///
/// Believed, not proved: two texts are equal exactly when they hold the
/// same characters.
pub assume_specification[ <str as PartialEq>::eq ](a: &str, b: &str) -> (r: bool)
    ensures
        r == (a@ == b@),
;

/// The upper-case form of a text, as `str::to_uppercase` gives it: each
/// character replaced by its Unicode upper-case mapping, which may be longer
/// than one character.
pub uninterp spec fn uppercase(s: Seq<char>) -> Seq<char>;

/// `str::to_uppercase`.
///
/// Believed, not proved: the result depends on the characters of the
/// argument alone. Nothing more is claimed of it.
pub assume_specification[ str::to_uppercase ](s: &str) -> (r: String)
    ensures
        r@ == uppercase(s@),
;

/// The character that parts an owner from what it owns in a qualified name.
pub open spec fn separator() -> char {
    '.'
}

/// `owner`, the separator, `name`.
pub open spec fn qualified(owner: Seq<char>, name: Seq<char>) -> Seq<char> {
    owner.push(separator()) + name
}

/// Whether the text holds the separator.
pub fn has_separator(s: &str) -> (r: bool)
    ensures
        r == s@.contains(separator()),
{
    let mut found = false;
    for c in it: s.chars()
        invariant
            it.seq() == s@,
            found == (exists|j: int| 0 <= j < it.index() && s@[j] == separator()),
    {
        if c == '.' {
            found = true;
        }
    }
    found
}

/// Joins an owner and a name with the separator.
pub fn qualify(owner: &str, name: &str) -> (r: String)
    ensures
        r@ == qualified(owner@, name@),
{
    let mut out = String::from_str(owner);
    proof {
        reveal_strlit(".");
    }
    out.append(".");
    out.append(name);
    out
}

} // verus!
