//! Path-name decomposition on textual paths: the final component after the
//! last separator, and its stem/extension split at the last dot.
//!
//! Paths are plain strings here; `/` is the component separator.

use vstd::prelude::*;

use crate::strings::{find_last_char, last_index_of};

verus! {

/// The final component of a path: everything after the last `/`
/// (the whole path when it holds no `/`). May be empty, for paths
/// that end in a separator.
pub open spec fn spec_file_name(p: Seq<char>) -> Seq<char> {
    p.subrange(last_index_of(p, '/') + 1, p.len() as int)
}

/// The stem of a file name: the part before the last dot, or the whole
/// name when the only dot is at the start (a leading-dot name has no
/// extension) or there is no dot.
pub open spec fn spec_stem_of_name(name: Seq<char>) -> Seq<char> {
    let d = last_index_of(name, '.');
    if d <= 0 {
        name
    } else {
        name.subrange(0, d)
    }
}

/// The extension of a file name: the part after the last dot, absent when
/// the name has no dot past its first character.
pub open spec fn spec_ext_of_name(name: Seq<char>) -> Option<Seq<char>> {
    let d = last_index_of(name, '.');
    if d <= 0 {
        None
    } else {
        Some(name.subrange(d + 1, name.len() as int))
    }
}

/// The final path component, or `None` when it is empty.
pub fn file_name_of(p: &str) -> (r: Option<String>)
    ensures
        match r {
            Some(n) => n@ == spec_file_name(p@) && spec_file_name(p@).len() > 0,
            None => spec_file_name(p@).len() == 0,
        },
{
    proof {
        crate::strings::lemma_last_index_of_bounds(p@, '/');
    }
    let n = p.unicode_len();
    let start: usize = match find_last_char(p, '/') {
        Some(i) => i + 1,
        None => 0,
    };
    if start == n {
        None
    } else {
        Some(p.substring_char(start, n).to_owned())
    }
}

/// The stem of the final path component, or `None` when the component is empty.
pub fn file_stem_of(p: &str) -> (r: Option<String>)
    ensures
        match r {
            Some(s) => s@ == spec_stem_of_name(spec_file_name(p@)) && spec_file_name(p@).len() > 0,
            None => spec_file_name(p@).len() == 0,
        },
{
    match file_name_of(p) {
        None => None,
        Some(name) => {
            proof {
                crate::strings::lemma_last_index_of_bounds(name@, '.');
            }
            match find_last_char(name.as_str(), '.') {
                Some(d) if d > 0 => Some(name.as_str().substring_char(0, d).to_owned()),
                _ => Some(name),
            }
        },
    }
}

/// The extension of the final path component, or `None` when there is none.
pub fn extension_of(p: &str) -> (r: Option<String>)
    ensures
        match r {
            Some(e) => spec_ext_of_name(spec_file_name(p@)) == Some(e@),
            None => spec_ext_of_name(spec_file_name(p@)) is None,
        },
{
    match file_name_of(p) {
        None => {
            assert(spec_file_name(p@).len() == 0);
            assert(last_index_of(spec_file_name(p@), '.') == -1);
            None
        },
        Some(name) => {
            proof {
                crate::strings::lemma_last_index_of_bounds(name@, '.');
            }
            let nlen = name.as_str().unicode_len();
            match find_last_char(name.as_str(), '.') {
                Some(d) if d > 0 => Some(name.as_str().substring_char(d + 1, nlen).to_owned()),
                _ => None,
            }
        },
    }
}

} // verus!
