//! Payload entries and the path-traversal guard.
//!
//! A payload is a list of entries, each a relative path with either a
//! directory marker or file bytes. Before any entry may be materialized
//! under the install target, its path must be shown to stay strictly
//! inside the target: the guard here rejects empty and absolute paths,
//! alternate separators and drive marks, and any `..` segment.

use vstd::prelude::*;
use crate::text::str_chars;

verus! {

/// One entry of the payload: a relative path, whether it is a directory,
/// and for files the bytes.
pub struct PayloadEntry {
    pub name: String,
    pub is_dir: bool,
    pub data: Vec<u8>,
}

/// The model of a payload entry: its path, directory flag and bytes.
pub open spec fn entry_model(e: PayloadEntry) -> (Seq<char>, bool, Seq<u8>) {
    (e.name@, e.is_dir, e.data@)
}

/// `..` stands as a whole path segment beginning at position `i` of `s`.
pub open spec fn dotdot_at(s: Seq<char>, i: int) -> bool {
    &&& 0 <= i
    &&& i + 2 <= s.len()
    &&& s[i] == '.'
    &&& s[i + 1] == '.'
    &&& (i == 0 || s[i - 1] == '/')
    &&& (i + 2 == s.len() || s[i + 2] == '/')
}

/// The path contains an ascent segment.
pub open spec fn has_ascent(s: Seq<char>) -> bool {
    exists|i: int| dotdot_at(s, i)
}

/// A relative path that stays strictly inside the directory it is joined
/// under: nonempty, not absolute, free of alternate separators and drive
/// marks, and without ascent segments.
pub open spec fn safe_entry_name(s: Seq<char>) -> bool {
    &&& s.len() > 0
    &&& s[0] != '/'
    &&& (forall|i: int| 0 <= i < s.len() ==> s[i] != '\\' && s[i] != ':')
    &&& !has_ascent(s)
}

/// Decides `safe_entry_name` by a single scan that tracks whether the
/// current path segment so far is a prefix of `..`.
pub fn is_safe_entry_name(name: &str) -> (r: bool)
    ensures
        r == safe_entry_name(name@),
{
    let ghost s = name@;
    let v = str_chars(name);
    if v.len() == 0 {
        return false;
    }
    if v[0] == '/' {
        return false;
    }
    let mut i: usize = 0;
    // 0, 1, 2: the segment so far is that many characters, all dots;
    // 3: the segment so far can no longer become exactly `..`.
    let mut dots: u8 = 0;
    let ghost mut seg_start: int = 0;
    while i < v.len()
        invariant
            s == name@,
            v@ == s,
            s.len() > 0,
            s[0] != '/',
            0 <= i <= s.len(),
            forall|k: int| 0 <= k < i ==> s[k] != '\\' && s[k] != ':',
            0 <= seg_start <= i,
            seg_start == 0 || s[seg_start - 1] == '/',
            forall|k: int| seg_start <= k < i ==> s[k] != '/',
            dots <= 3,
            dots == 0 ==> i == seg_start,
            dots == 1 ==> i == seg_start + 1 && s[seg_start] == '.',
            dots == 2 ==> i == seg_start + 2 && s[seg_start] == '.' && s[seg_start + 1] == '.',
            dots == 3 ==> !(i - seg_start <= 2 && (forall|k: int|
                seg_start <= k < i ==> s[k] == '.')),
            forall|j: int| 0 <= j && j + 2 < i ==> !dotdot_at(s, j),
        decreases v@.len() - i,
    {
        let c = v[i];
        if c == '\\' || c == ':' {
            return false;
        }
        if c == '/' {
            if dots == 2 {
                proof {
                    assert(dotdot_at(s, seg_start));
                }
                return false;
            }
            proof {
                assert forall|j: int| 0 <= j && j + 2 < i + 1 implies !dotdot_at(s, j) by {
                    if j + 2 == i {
                        if dots == 3 {
                            if i - seg_start == 2 {
                                assert(!(s[seg_start] == '.' && s[seg_start + 1] == '.'));
                            }
                        }
                    }
                }
                seg_start = i + 1;
            }
            dots = 0;
        } else if c == '.' {
            proof {
                assert forall|j: int| 0 <= j && j + 2 < i + 1 implies !dotdot_at(s, j) by {
                    if j + 2 == i {
                        assert(s[j + 2] != '/');
                    }
                }
            }
            if dots == 0 {
                dots = 1;
            } else if dots == 1 {
                dots = 2;
            } else {
                dots = 3;
            }
        } else {
            proof {
                assert forall|j: int| 0 <= j && j + 2 < i + 1 implies !dotdot_at(s, j) by {
                    if j + 2 == i {
                        assert(s[j + 2] != '/');
                    }
                }
            }
            dots = 3;
        }
        i = i + 1;
    }
    if dots == 2 {
        proof {
            assert(dotdot_at(s, seg_start));
        }
        return false;
    }
    proof {
        assert forall|j: int| !dotdot_at(s, j) by {
            if 0 <= j && j + 2 == i {
                if dots == 3 {
                    if i - seg_start == 2 {
                        assert(!(s[seg_start] == '.' && s[seg_start + 1] == '.'));
                    }
                }
            }
        }
        assert(!has_ascent(s));
    }
    true
}

} // verus!
