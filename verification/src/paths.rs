//! Path strings and library file names.
//!
//! Paths are modelled as plain character sequences; joining appends a single
//! separator between the base and the new segment. A library file name is
//! reduced to its stem: everything before the last `.`.

use vstd::prelude::*;

verus! {

/// The path formed by appending `seg` to `base` with a separator in between.
pub open spec fn join_path(base: Seq<char>, seg: Seq<char>) -> Seq<char> {
    base + "/"@ + seg
}

/// Whether the name carries an extension delimiter at all.
pub open spec fn has_dot(name: Seq<char>) -> bool {
    exists|i: int| 0 <= i < name.len() && name[i] == '.'
}

/// The index of the last `.` in the name, or `-1` when there is none.
pub open spec fn last_dot_index(name: Seq<char>) -> int
    decreases name.len(),
{
    if name.len() == 0 {
        -1
    } else if name[name.len() - 1] == '.' {
        name.len() - 1
    } else {
        last_dot_index(name.drop_last())
    }
}

/// The name with its final extension stripped: everything before the last `.`.
pub open spec fn stem_of(name: Seq<char>) -> Seq<char> {
    name.take(last_dot_index(name))
}

proof fn lemma_last_dot_at(name: Seq<char>, k: int)
    requires
        0 <= k < name.len(),
        name[k] == '.',
        forall|j: int| k < j < name.len() ==> name[j] != '.',
    ensures
        last_dot_index(name) == k,
    decreases name.len(),
{
    if k < name.len() - 1 {
        assert(name[name.len() - 1] != '.');
        assert(name.drop_last()[k] == '.');
        lemma_last_dot_at(name.drop_last(), k);
    }
}

proof fn lemma_no_dot(name: Seq<char>)
    requires
        forall|j: int| 0 <= j < name.len() ==> name[j] != '.',
    ensures
        last_dot_index(name) == -1,
    decreases name.len(),
{
    if name.len() > 0 {
        lemma_no_dot(name.drop_last());
    }
}

/// Appends `seg` to `base` with a separator in between, as a fresh string.
pub fn join_path_str(base: &str, seg: &str) -> (r: String)
    ensures
        r@ == join_path(base@, seg@),
{
    let mut r = base.to_owned();
    r.append("/");
    r.append(seg);
    r
}

/// Strips the final extension from a file name: `Some` of everything before
/// the last `.`, or `None` when the name has no `.` at all.
pub fn strip_extension(name: &str) -> (r: Option<String>)
    ensures
        match r {
            Some(stem) => has_dot(name@) && stem@ == stem_of(name@),
            None => !has_dot(name@),
        },
{
    let n: usize = name.unicode_len();
    let mut i: usize = n;
    while i > 0
        invariant
            i <= n,
            n == name@.len(),
            forall|j: int| i <= j < name@.len() ==> name@[j] != '.',
        decreases i,
    {
        i = i - 1;
        let c = name.get_char(i);
        if c == '.' {
            let stem = name.substring_char(0, i);
            proof {
                lemma_last_dot_at(name@, i as int);
                assert(name@.subrange(0, i as int) =~= stem_of(name@));
            }
            return Some(stem.to_owned());
        }
    }
    proof {
        lemma_no_dot(name@);
    }
    None
}

} // verus!
