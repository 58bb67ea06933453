//! Extraction of a file name's extension, mirroring how paths are read:
//! the part after the last dot, except that a name without a dot, or whose
//! only dot leads it (a hidden file), has no extension — rendered here as
//! the empty string.

use vstd::prelude::*;
use vstd::string::*;

verus! {

/// The index of the last `.` in a character sequence, or `-1` if none.
pub open spec fn last_dot(s: Seq<char>) -> int
    decreases s.len(),
{
    if s.len() == 0 {
        -1
    } else if s[s.len() - 1] == '.' {
        s.len() - 1
    } else {
        last_dot(s.drop_last())
    }
}

/// The extension of a file name: the characters after the last dot, or the
/// empty sequence when there is no dot or the only dot is the leading
/// character.
pub open spec fn spec_extension_of(name: Seq<char>) -> Seq<char> {
    let d = last_dot(name);
    if d <= 0 {
        Seq::empty()
    } else {
        name.subrange(d + 1, name.len() as int)
    }
}

/// When no position at or beyond `k` holds a dot, the last dot lies in the
/// prefix of length `k`.
proof fn lemma_last_dot_prefix(s: Seq<char>, k: int)
    requires
        0 <= k <= s.len(),
        forall|j: int| k <= j < s.len() ==> s[j] != '.',
    ensures
        last_dot(s) == last_dot(s.take(k)),
    decreases s.len() - k,
{
    if k == s.len() {
        assert(s.take(k) =~= s);
    } else {
        assert(s[s.len() - 1] != '.');
        assert(s.drop_last() =~= s.take(s.len() - 1));
        lemma_last_dot_prefix(s.take(s.len() - 1), k);
        assert(s.take(s.len() - 1).take(k) =~= s.take(k));
    }
}

/// Returns the extension of a file name, the empty string when it has none.
pub fn extension_of<'a>(name: &'a str) -> (r: &'a str)
    ensures
        r@ == spec_extension_of(name@),
{
    let len = name.unicode_len();
    let mut i: usize = len;
    while i > 0
        invariant
            i <= len,
            len == name@.len(),
            forall|j: int| i <= j < len ==> name@[j] != '.',
        decreases i,
    {
        if name.get_char(i - 1) == '.' {
            proof {
                lemma_last_dot_prefix(name@, i as int);
                assert(name@.take(i as int)[i - 1] == '.');
                assert(last_dot(name@) == i - 1);
            }
            if i == 1 {
                // the only dot leads the name: a hidden file, no extension
                let r = "";
                proof {
                    reveal_strlit("");
                    assert(r@ =~= Seq::<char>::empty());
                }
                return r;
            }
            let r = name.substring_char(i, len);
            proof {
                assert(r@ =~= spec_extension_of(name@));
            }
            return r;
        }
        i = i - 1;
    }
    proof {
        lemma_last_dot_prefix(name@, 0);
        assert(name@.take(0) =~= Seq::<char>::empty());
        assert(last_dot(name@.take(0)) == -1);
    }
    let r = "";
    proof {
        reveal_strlit("");
        assert(r@ =~= Seq::<char>::empty());
    }
    r
}

} // verus!
