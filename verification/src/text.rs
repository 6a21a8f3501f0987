//! Small questions about strings.

use vstd::prelude::*;
use vstd::string::StringExecFns;

verus! {

/// The text is the name of a script file: it ends in `.gd`.
pub open spec fn is_script_file(name: Seq<char>) -> bool {
    name.len() >= 3 && name[name.len() - 3] == '.' && name[name.len() - 2] == 'g' && name[name.len()
        - 1] == 'd'
}

/// The two parts of an enum path `ClassName.EnumName`: what stands before
/// and behind its one dot. A text without a dot, or with more than one, is
/// no enum path.
pub open spec fn enum_path_parts(path: Seq<char>) -> Option<(Seq<char>, Seq<char>)> {
    match path.index_of_first('.') {
        Some(dot) => {
            let rest = path.subrange(dot + 1, path.len() as int);
            if rest.contains('.') {
                None
            } else {
                Some((path.subrange(0, dot), rest))
            }
        },
        None => None,
    }
}

/// Whether two texts are the same.
pub fn same_text(a: &str, b: &str) -> (r: bool)
    ensures
        r == (a@ == b@),
{
    String::from_str(a) == String::from_str(b)
}

/// Whether the text is empty.
pub fn is_blank(text: &str) -> (r: bool)
    ensures
        r == (text@.len() == 0),
{
    text.unicode_len() == 0
}

/// Whether the text ends in `.gd`.
pub fn ends_with_gd(name: &str) -> (r: bool)
    ensures
        r == is_script_file(name@),
{
    let len = name.unicode_len();
    if len < 3 {
        return false;
    }
    name.get_char(len - 3) == '.' && name.get_char(len - 2) == 'g' && name.get_char(len - 1) == 'd'
}

/// The two parts of an enum path, where the text is one.
pub fn split_enum_path(path: &str) -> (r: Option<(String, String)>)
    ensures
        match r {
            Some(parts) => enum_path_parts(path@) == Some((parts.0@, parts.1@)),
            None => enum_path_parts(path@) is None,
        },
{
    let len = path.unicode_len();
    let mut i: usize = 0;
    proof {
        path@.index_of_first_ensures('.');
    }
    while i < len && path.get_char(i) != '.'
        invariant
            i <= len,
            len == path@.len(),
            forall|j: int| 0 <= j < i ==> path@[j] != '.',
        decreases len - i,
    {
        i += 1;
    }
    if i >= len {
        assert(!path@.contains('.'));
        return None;
    }
    let dot = i;
    assert(path@[dot as int] == '.');
    assert(path@.contains('.'));
    assert(path@.index_of_first('.') == Some(dot as int));
    let ghost rest = path@.subrange(dot + 1, len as int);
    let mut k: usize = dot + 1;
    while k < len
        invariant
            dot < k <= len,
            len == path@.len(),
            rest == path@.subrange(dot + 1, len as int),
            path@.index_of_first('.') == Some(dot as int),
            forall|j: int| dot < j < k ==> path@[j] != '.',
        decreases len - k,
    {
        if path.get_char(k) == '.' {
            assert(rest[k - dot - 1] == '.');
            assert(rest.contains('.'));
            return None;
        }
        k += 1;
    }
    assert(!rest.contains('.')) by {
        if rest.contains('.') {
            let at = choose|at: int| 0 <= at < rest.len() && rest[at] == '.';
            assert(path@[at + dot + 1] == '.');
        }
    }
    let first = String::from_str(path.substring_char(0, dot));
    let second = String::from_str(path.substring_char(dot + 1, len));
    Some((first, second))
}

} // verus!
