//! Names of metrics and labels: which strings are well-formed names, and how
//! a package identifier becomes the namespace that prefixes metric names.

use vstd::prelude::*;

verus! {

/// Whether `c` is one of `a`..`z`.
pub open spec fn is_lower(c: char) -> bool {
    'a' <= c && c <= 'z'
}

/// Whether `c` is one of `A`..`Z`.
pub open spec fn is_upper(c: char) -> bool {
    'A' <= c && c <= 'Z'
}

/// Whether `c` is one of `0`..`9`.
pub open spec fn is_digit(c: char) -> bool {
    '0' <= c && c <= '9'
}

/// A character that may start a label name: a letter or the underscore.
pub open spec fn is_label_start(c: char) -> bool {
    is_lower(c) || is_upper(c) || c == '_'
}

/// A character that may start a metric name: what may start a label name, or
/// a colon.
pub open spec fn is_metric_start(c: char) -> bool {
    is_label_start(c) || c == ':'
}

/// A well-formed label name: a letter or underscore, followed by letters,
/// digits and underscores.
pub open spec fn is_label_name(s: Seq<char>) -> bool {
    &&& s.len() > 0
    &&& is_label_start(s[0])
    &&& forall|i: int| 0 < i < s.len() ==> is_label_start(#[trigger] s[i]) || is_digit(s[i])
}

/// A well-formed metric name: as a label name, with the colon allowed
/// everywhere.
pub open spec fn is_metric_name(s: Seq<char>) -> bool {
    &&& s.len() > 0
    &&& is_metric_start(s[0])
    &&& forall|i: int| 0 < i < s.len() ==> is_metric_start(#[trigger] s[i]) || is_digit(s[i])
}

/// The full name of a metric `name` in `namespace`: the two joined by an
/// underscore, or `name` alone where either is empty.
pub open spec fn qualified_name(namespace: Seq<char>, name: Seq<char>) -> Seq<char> {
    if name.len() == 0 || namespace.len() == 0 {
        name
    } else {
        namespace + seq!['_'] + name
    }
}

/// The characters a namespace is made of: lowercase letters, digits and the
/// underscore.
pub open spec fn is_namespace_char(c: char) -> bool {
    is_lower(c) || is_digit(c) || c == '_'
}

/// What becomes of one character of a package identifier: letters are
/// lowercased, digits stay, and everything else turns into an underscore.
pub open spec fn normalized(c: char) -> char {
    if is_lower(c) || is_digit(c) {
        c
    } else if is_upper(c) {
        ((c as u8) + 32) as u8 as char
    } else {
        '_'
    }
}

/// The namespace derived from a package identifier, character by character.
pub open spec fn sanitized(id: Seq<char>) -> Seq<char> {
    Seq::new(id.len(), |i: int| normalized(id[i]))
}

/// `String::push` of std appends one character to the end of the string.
#[verifier::external_body]
fn push_char(s: &mut String, c: char)
    ensures
        final(s)@ == old(s)@.push(c),
{
    s.push(c);
}

/// Normalizes one character.
pub fn normalize(c: char) -> (r: char)
    ensures
        r == normalized(c),
        is_namespace_char(r),
{
    if ('a' <= c && c <= 'z') || ('0' <= c && c <= '9') {
        c
    } else if 'A' <= c && c <= 'Z' {
        let b: u8 = c as u8;
        (b + 32) as char
    } else {
        '_'
    }
}

/// Derives a namespace from a package identifier.
pub fn sanitize(id: &str) -> (ns: String)
    ensures
        ns@ == sanitized(id@),
        forall|i: int| 0 <= i < ns@.len() ==> is_namespace_char(#[trigger] ns@[i]),
{
    let mut ns = String::new();
    for c in it: id.chars()
        invariant
            it.seq() == id@,
            ns@.len() == it.index(),
            forall|j: int| 0 <= j < ns@.len() ==> #[trigger] ns@[j] == normalized(id@[j]),
    {
        let r = normalize(c);
        push_char(&mut ns, r);
    }
    assert(ns@ =~= sanitized(id@));
    ns
}

/// A label name qualified by a namespace that does not start with a digit is
/// a well-formed metric name.
pub proof fn lemma_qualified_name_is_metric_name(namespace: Seq<char>, name: Seq<char>)
    requires
        namespace.len() > 0,
        !is_digit(namespace[0]),
        forall|i: int| 0 <= i < namespace.len() ==> is_namespace_char(#[trigger] namespace[i]),
        is_label_name(name),
    ensures
        is_metric_name(qualified_name(namespace, name)),
{
    let full = qualified_name(namespace, name);
    assert(full[0] == namespace[0]);
    assert forall|i: int| 0 < i < full.len() implies is_metric_start(#[trigger] full[i])
        || is_digit(full[i]) by {
        if i < namespace.len() {
            assert(full[i] == namespace[i]);
        } else if i == namespace.len() {
            assert(full[i] == '_');
        } else {
            assert(full[i] == name[i - namespace.len() - 1]);
        }
    }
}

} // verus!
