//! The translation of native type names into the target's type names.

use vstd::prelude::*;
use crate::text::{has_separator, qualified, qualify, separator};

verus! {

/// The native spellings of a text: the two introspection names and the C
/// spellings of a character pointer.
pub open spec fn string_like(native: Seq<char>) -> bool {
    ||| native == "utf8"@
    ||| native == "filename"@
    ||| native == "gchar*"@
    ||| native == "const gchar*"@
    ||| native == "char*"@
    ||| native == "const char*"@
}

/// The native spellings of a truth value.
pub open spec fn boolean_like(native: Seq<char>) -> bool {
    ||| native == "gboolean"@
    ||| native == "boolean"@
    ||| native == "bool"@
}

/// The native integer and size types.
pub open spec fn number_like(native: Seq<char>) -> bool {
    ||| native == "gint"@
    ||| native == "guint"@
    ||| native == "gint8"@
    ||| native == "guint8"@
    ||| native == "gint16"@
    ||| native == "guint16"@
    ||| native == "gint32"@
    ||| native == "guint32"@
    ||| native == "gint64"@
    ||| native == "guint64"@
    ||| native == "gshort"@
    ||| native == "gushort"@
    ||| native == "glong"@
    ||| native == "gulong"@
    ||| native == "gsize"@
    ||| native == "gssize"@
}

/// The native name of "returns nothing".
pub open spec fn nothing_like(native: Seq<char>) -> bool {
    native == "none"@
}

/// Whether the fixed table has the native name.
pub open spec fn is_primitive(native: Seq<char>) -> bool {
    string_like(native) || boolean_like(native) || number_like(native) || nothing_like(native)
}

/// The target type name of a native type name read inside `namespace`.
///
/// The fixed table comes first. A name that it lacks is taken to be local
/// to the namespace when it holds no separator, and to be fully qualified
/// already when it holds one.
pub open spec fn translated(native: Seq<char>, namespace: Seq<char>) -> Seq<char> {
    if string_like(native) {
        "string"@
    } else if boolean_like(native) {
        "boolean"@
    } else if number_like(native) {
        "num"@
    } else if nothing_like(native) {
        "nil"@
    } else if native.contains(separator()) {
        native
    } else {
        qualified(namespace, native)
    }
}

/// No native name is in two families of the fixed table: the names differ
/// in their first two characters from family to family.
pub proof fn lemma_families_apart(native: Seq<char>)
    ensures
        string_like(native) ==> !boolean_like(native) && !number_like(native) && !nothing_like(
            native,
        ),
        boolean_like(native) ==> !number_like(native) && !nothing_like(native),
        number_like(native) ==> !nothing_like(native),
{
    reveal_strlit("utf8");
    reveal_strlit("filename");
    reveal_strlit("gchar*");
    reveal_strlit("const gchar*");
    reveal_strlit("char*");
    reveal_strlit("const char*");
    reveal_strlit("gboolean");
    reveal_strlit("boolean");
    reveal_strlit("bool");
    reveal_strlit("gint");
    reveal_strlit("guint");
    reveal_strlit("gint8");
    reveal_strlit("guint8");
    reveal_strlit("gint16");
    reveal_strlit("guint16");
    reveal_strlit("gint32");
    reveal_strlit("guint32");
    reveal_strlit("gint64");
    reveal_strlit("guint64");
    reveal_strlit("gshort");
    reveal_strlit("gushort");
    reveal_strlit("glong");
    reveal_strlit("gulong");
    reveal_strlit("gsize");
    reveal_strlit("gssize");
    reveal_strlit("none");
    if string_like(native) {
        assert(native[0] == 'u' || native[0] == 'f' || native[0] == 'c' || (native[0] == 'g'
            && native[1] == 'c'));
    }
    if boolean_like(native) {
        assert(native[0] == 'b' || (native[0] == 'g' && native[1] == 'b'));
    }
    if number_like(native) {
        assert(native[0] == 'g');
        assert(native[1] == 'i' || native[1] == 'u' || native[1] == 's' || native[1] == 'l');
    }
    if nothing_like(native) {
        assert(native[0] == 'n');
    }
}

/// No name of the fixed table holds the separator.
pub proof fn lemma_table_is_plain(native: Seq<char>)
    requires
        is_primitive(native),
    ensures
        !native.contains(separator()),
{
    reveal_strlit("utf8");
    reveal_strlit("filename");
    reveal_strlit("gchar*");
    reveal_strlit("const gchar*");
    reveal_strlit("char*");
    reveal_strlit("const char*");
    reveal_strlit("gboolean");
    reveal_strlit("boolean");
    reveal_strlit("bool");
    reveal_strlit("gint");
    reveal_strlit("guint");
    reveal_strlit("gint8");
    reveal_strlit("guint8");
    reveal_strlit("gint16");
    reveal_strlit("guint16");
    reveal_strlit("gint32");
    reveal_strlit("guint32");
    reveal_strlit("gint64");
    reveal_strlit("guint64");
    reveal_strlit("gshort");
    reveal_strlit("gushort");
    reveal_strlit("glong");
    reveal_strlit("gulong");
    reveal_strlit("gsize");
    reveal_strlit("gssize");
    reveal_strlit("none");
    assert forall|i: int| 0 <= i < native.len() implies native[i] != separator() by {}
}

fn is_string_like(native: &str) -> (r: bool)
    ensures
        r == string_like(native@),
{
    native.eq("utf8") || native.eq("filename") || native.eq("gchar*") || native.eq("const gchar*")
        || native.eq("char*") || native.eq("const char*")
}

fn is_boolean_like(native: &str) -> (r: bool)
    ensures
        r == boolean_like(native@),
{
    native.eq("gboolean") || native.eq("boolean") || native.eq("bool")
}

fn is_number_like(native: &str) -> (r: bool)
    ensures
        r == number_like(native@),
{
    native.eq("gint") || native.eq("guint") || native.eq("gint8") || native.eq("guint8")
        || native.eq("gint16") || native.eq("guint16") || native.eq("gint32") || native.eq(
        "guint32",
    ) || native.eq("gint64") || native.eq("guint64") || native.eq("gshort") || native.eq("gushort")
        || native.eq("glong") || native.eq("gulong") || native.eq("gsize") || native.eq("gssize")
}

/// Translates a native type name read inside `namespace`.
pub fn translate(native: &str, namespace: &str) -> (r: String)
    ensures
        r@ == translated(native@, namespace@),
        string_like(native@) ==> r@ == "string"@,
        boolean_like(native@) ==> r@ == "boolean"@,
        number_like(native@) ==> r@ == "num"@,
        nothing_like(native@) ==> r@ == "nil"@,
{
    proof {
        lemma_families_apart(native@);
    }
    if is_string_like(native) {
        String::from_str("string")
    } else if is_boolean_like(native) {
        String::from_str("boolean")
    } else if is_number_like(native) {
        String::from_str("num")
    } else if native.eq("none") {
        String::from_str("nil")
    } else if has_separator(native) {
        String::from_str(native)
    } else {
        qualify(namespace, native)
    }
}

} // verus!
