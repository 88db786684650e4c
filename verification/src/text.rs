//! Verified string utilities: prefix test, substring search, and the
//! directory prefix of a path. These carry the string reasoning that mode
//! classification, probe classification, and replica setup rely on.

use vstd::prelude::*;

verus! {

/// True iff `sub` occurs contiguously somewhere in `s`.
pub open spec fn spec_contains(s: Seq<char>, sub: Seq<char>) -> bool {
    exists|i: int| 0 <= i && i + sub.len() <= s.len() && sub == #[trigger] s.subrange(
        i,
        i + sub.len(),
    )
}

/// Index of the last `/` in `s`, or `-1` when `s` holds none.
pub open spec fn spec_last_slash(s: Seq<char>) -> int
    decreases s.len(),
{
    if s.len() == 0 {
        -1
    } else if s[s.len() - 1] == '/' {
        s.len() - 1
    } else {
        spec_last_slash(s.drop_last())
    }
}

/// `spec_last_slash` names the last slash: at its index stands a `/`, and
/// none stands after it; when it is `-1`, `s` holds no slash at all.
proof fn lemma_last_slash(s: Seq<char>)
    ensures
        spec_last_slash(s) >= 0 ==> 0 <= spec_last_slash(s) < s.len() && s[spec_last_slash(s)]
            == '/' && (forall|j: int| spec_last_slash(s) < j < s.len() ==> s[j] != '/'),
        spec_last_slash(s) == -1 ==> forall|j: int| 0 <= j < s.len() ==> s[j] != '/',
        spec_last_slash(s) == -1 || 0 <= spec_last_slash(s) < s.len(),
    decreases s.len(),
{
    if s.len() > 0 && s[s.len() - 1] != '/' {
        lemma_last_slash(s.drop_last());
        assert forall|j: int| 0 <= j < s.len() - 1 implies s.drop_last()[j] == s[j] by {}
    }
}

/// True iff `prefix@` is a prefix of `s@`.
pub fn str_starts_with(s: &str, prefix: &str) -> (r: bool)
    ensures
        r == prefix@.is_prefix_of(s@),
{
    let n: usize = prefix.unicode_len();
    let m: usize = s.unicode_len();
    if n > m {
        return false;
    }
    let mut i: usize = 0;
    while i < n
        invariant
            i <= n <= m,
            n == prefix@.len(),
            m == s@.len(),
            forall|j: int| 0 <= j < i ==> s@[j] == prefix@[j],
        decreases n - i,
    {
        if s.get_char(i) != prefix.get_char(i) {
            proof {
                assert(!prefix@.is_prefix_of(s@)) by {
                    if prefix@.is_prefix_of(s@) {
                        assert(prefix@[i as int] == s@.subrange(0, n as int)[i as int]);
                    }
                }
            }
            return false;
        }
        i += 1;
    }
    proof {
        assert(prefix@ =~= s@.subrange(0, n as int));
    }
    true
}

/// True iff `sub@` occurs contiguously somewhere in `s@`.
pub fn str_contains(s: &str, sub: &str) -> (r: bool)
    ensures
        r == spec_contains(s@, sub@),
{
    let n: usize = sub.unicode_len();
    let m: usize = s.unicode_len();
    if n > m {
        proof {
            assert(!spec_contains(s@, sub@)) by {
                assert forall|i: int| 0 <= i && i + sub@.len() <= s@.len() implies sub@
                    != #[trigger] s@.subrange(i, i + sub@.len()) by {}
            }
        }
        return false;
    }
    let mut i: usize = 0;
    while i <= m - n
        invariant
            n == sub@.len(),
            m == s@.len(),
            n <= m,
            i <= m + 1,
            forall|k: int| 0 <= k < i ==> sub@ != #[trigger] s@.subrange(k, k + n as int),
        decreases m - i,
    {
        let tail = s.substring_char(i, m);
        if str_starts_with(tail, sub) {
            proof {
                assert(sub@ =~= s@.subrange(i as int, i as int + n as int)) by {
                    assert(sub@ =~= tail@.subrange(0, n as int));
                    assert(tail@.subrange(0, n as int) =~= s@.subrange(
                        i as int,
                        i as int + n as int,
                    ));
                }
            }
            return true;
        }
        i += 1;
    }
    proof {
        assert(!spec_contains(s@, sub@)) by {
            assert forall|k: int| 0 <= k && k + sub@.len() <= s@.len() implies sub@
                != #[trigger] s@.subrange(k, k + sub@.len()) by {
                assert(k < i);
            }
        }
    }
    false
}

/// The directory prefix of `path`: everything before the last `/`, or `/`
/// itself when the last slash is the first character. `None` when `path`
/// holds no slash, in which case it names a bare file with no directory
/// part to create.
pub fn parent_of(path: &str) -> (r: Option<String>)
    ensures
        ({
            let k = spec_last_slash(path@);
            &&& (r is Some <==> k >= 0)
            &&& (k == 0 ==> (r matches Some(p) && p@ == "/"@))
            &&& (k > 0 ==> (r matches Some(p) && p@ == path@.subrange(0, k)))
        }),
{
    let m: usize = path.unicode_len();
    let mut i: usize = m;
    while i > 0
        invariant
            i <= m,
            m == path@.len(),
            forall|j: int| i <= j < m ==> path@[j] != '/',
        decreases i,
    {
        if path.get_char(i - 1) == '/' {
            proof {
                lemma_last_slash(path@);
                assert(spec_last_slash(path@) == i - 1);
            }
            if i - 1 == 0 {
                return Some(String::from_str("/"));
            }
            let p = path.substring_char(0, i - 1);
            return Some(String::from_str(p));
        }
        i -= 1;
    }
    proof {
        lemma_last_slash(path@);
    }
    None
}

} // verus!
