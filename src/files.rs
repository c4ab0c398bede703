//! Choosing a local name for a downloaded file that does not overwrite an
//! existing file: `name.ext`, then `name-1.ext`, `name-2.ext`, and so on.

use vstd::prelude::*;
use vstd::string::*;
use crate::text::{decimal, push_char_to, substring, to_decimal};

verus! {

/// How many numbered names are tried before giving up.
pub const MAX_SUFFIX: u64 = 9999;

/// Position of the last `.` in `s`, or -1 when there is none.
pub open spec fn last_dot(s: Seq<char>) -> int
    decreases s.len(),
{
    if s.len() == 0 {
        -1
    } else if s.last() == '.' {
        s.len() - 1
    } else {
        last_dot(s.drop_last())
    }
}

proof fn lemma_last_dot_range(s: Seq<char>)
    ensures
        -1 <= last_dot(s) < s.len(),
    decreases s.len(),
{
    if s.len() > 0 {
        lemma_last_dot_range(s.drop_last());
    }
}

/// A name that denotes no file of its own: empty, `.` or `..`.
pub open spec fn is_special_name(s: Seq<char>) -> bool {
    s.len() == 0 || s == seq!['.'] || s == seq!['.', '.']
}

/// The name without its extension: up to the last `.`, unless that dot is
/// the first character or there is none. `download` stands for a name that
/// denotes no file.
pub open spec fn file_stem(s: Seq<char>) -> Seq<char> {
    if is_special_name(s) {
        seq!['d', 'o', 'w', 'n', 'l', 'o', 'a', 'd']
    } else if last_dot(s) <= 0 {
        s
    } else {
        s.subrange(0, last_dot(s))
    }
}

/// The extension: what follows the last `.`, empty when there is none.
pub open spec fn file_extension(s: Seq<char>) -> Seq<char> {
    if is_special_name(s) || last_dot(s) <= 0 {
        Seq::empty()
    } else {
        s.subrange(last_dot(s) + 1, s.len() as int)
    }
}

/// The `i`-th alternative to `s`: `stem-i.ext`, or `stem-i` without an
/// extension.
pub open spec fn numbered_name(s: Seq<char>, i: nat) -> Seq<char> {
    let base = file_stem(s) + seq!['-'] + decimal(i);
    if file_extension(s).len() == 0 { base } else { base + seq!['.'] + file_extension(s) }
}

/// Whether `name` is among `existing`.
pub open spec fn taken(existing: Seq<String>, name: Seq<char>) -> bool {
    exists|k: int| 0 <= k < existing.len() && #[trigger] existing[k]@ == name
}

/// The name chosen for `s` when the names in `existing` are taken: `s` when
/// free, else the first free numbered alternative up to `MAX_SUFFIX`; none
/// when all of those are taken.
pub open spec fn unique_name(s: Seq<char>, existing: Seq<String>) -> Option<Seq<char>> {
    if !taken(existing, s) {
        Some(s)
    } else if exists|i: nat| 1 <= i <= MAX_SUFFIX && !taken(existing, #[trigger] numbered_name(s, i)) {
        Some(numbered_name(s, choose|i: nat| 1 <= i <= MAX_SUFFIX && !taken(existing, #[trigger] numbered_name(s, i))
            && forall|j: nat| 1 <= j < i ==> taken(existing, #[trigger] numbered_name(s, j))))
    } else {
        None
    }
}

fn contains_name(existing: &Vec<String>, name: &String) -> (r: bool)
    ensures
        r == taken(existing@, name@),
{
    let mut k: usize = 0;
    while k < existing.len()
        invariant
            k <= existing@.len(),
            forall|j: int| 0 <= j < k ==> existing@[j]@ != name@,
        decreases existing@.len() - k,
    {
        if existing[k] == *name {
            return true;
        }
        k = k + 1;
    }
    false
}

fn find_last_dot(s: &String) -> (r: Option<usize>)
    ensures
        match r {
            Some(d) => d as int == last_dot(s@),
            None => last_dot(s@) == -1,
        },
{
    let len = s.as_str().unicode_len();
    let mut i: usize = len;
    proof {
        assert(s@.subrange(0, len as int) =~= s@);
    }
    while i > 0
        invariant
            i <= s@.len(),
            len == s@.len(),
            last_dot(s@) == last_dot(s@.subrange(0, i as int)),
        decreases i,
    {
        let c = s.as_str().get_char(i - 1);
        proof {
            assert(s@.subrange(0, i as int).drop_last() =~= s@.subrange(0, i as int - 1));
        }
        if c == '.' {
            return Some(i - 1);
        }
        i = i - 1;
    }
    proof {
        assert(s@.subrange(0, 0) =~= Seq::<char>::empty());
    }
    None
}

fn split_name(s: &String) -> (r: (String, String))
    ensures
        r.0@ == file_stem(s@),
        r.1@ == file_extension(s@),
{
    let len = s.as_str().unicode_len();
    let special = len == 0
        || (len == 1 && s.as_str().get_char(0) == '.')
        || (len == 2 && s.as_str().get_char(0) == '.' && s.as_str().get_char(1) == '.');
    proof {
        if len == 1 && s@[0] == '.' {
            assert(s@ =~= seq!['.']);
        }
        if len == 2 && s@[0] == '.' && s@[1] == '.' {
            assert(s@ =~= seq!['.', '.']);
        }
        assert(special == is_special_name(s@));
    }
    if special {
        let stem = "download".to_owned();
        proof {
            reveal_strlit("download");
        }
        return (stem, String::new());
    }
    proof {
        lemma_last_dot_range(s@);
    }
    match find_last_dot(s) {
        Some(d) => {
            if d == 0 {
                (s.clone(), String::new())
            } else {
                (substring(s, 0, d), substring(s, d + 1, len))
            }
        },
        None => (s.clone(), String::new()),
    }
}

fn numbered(stem: &String, ext: &String, i: u64) -> (r: String)
    ensures
        r@ == if ext@.len() == 0 {
            stem@ + seq!['-'] + decimal(i as nat)
        } else {
            stem@ + seq!['-'] + decimal(i as nat) + seq!['.'] + ext@
        },
{
    let mut r = stem.clone();
    push_char_to(&mut r, '-');
    let digits = to_decimal(i);
    r.append(digits.as_str());
    if ext.as_str().unicode_len() > 0 {
        push_char_to(&mut r, '.');
        r.append(ext.as_str());
    }
    r
}

/// A name for a file to be saved as `file_name` that is not among `existing`
/// (the names already present where it is saved): `file_name` itself when
/// free, else the first free `stem-i.ext` for `i` from 1 to `MAX_SUFFIX`;
/// `None` when all of them are taken. A name among `existing` is never
/// returned.
pub fn ensure_unique_file_path(file_name: &str, existing: &Vec<String>) -> (r: Option<String>)
    ensures
        match r {
            Some(n) => unique_name(file_name@, existing@) == Some(n@) && !taken(existing@, n@),
            None => unique_name(file_name@, existing@) is None,
        },
{
    let name = file_name.to_owned();
    if !contains_name(existing, &name) {
        return Some(name);
    }
    let (stem, ext) = split_name(&name);
    let mut i: u64 = 1;
    while i <= MAX_SUFFIX
        invariant
            1 <= i <= MAX_SUFFIX + 1,
            taken(existing@, file_name@),
            stem@ == file_stem(file_name@),
            ext@ == file_extension(file_name@),
            forall|j: nat| 1 <= j < i ==> taken(existing@, #[trigger] numbered_name(file_name@, j)),
        decreases MAX_SUFFIX + 1 - i,
    {
        let candidate = numbered(&stem, &ext, i);
        assert(candidate@ == numbered_name(file_name@, i as nat));
        if !contains_name(existing, &candidate) {
            proof {
                let w = i as nat;
                assert(1 <= w <= MAX_SUFFIX && !taken(existing@, numbered_name(file_name@, w)));
                let c = choose|k: nat| 1 <= k <= MAX_SUFFIX && !taken(existing@, #[trigger] numbered_name(file_name@, k))
                    && forall|j: nat| 1 <= j < k ==> taken(existing@, #[trigger] numbered_name(file_name@, j));
                assert(forall|j: nat| 1 <= j < w ==> taken(existing@, #[trigger] numbered_name(file_name@, j)));
                if c < w {
                    assert(taken(existing@, numbered_name(file_name@, c)));
                } else if c > w {
                    assert(taken(existing@, numbered_name(file_name@, w)));
                }
            }
            return Some(candidate);
        }
        i = i + 1;
    }
    None
}

} // verus!
