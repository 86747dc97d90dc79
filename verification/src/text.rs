//! Space-trimming primitives shared by the radius table and the record
//! reader.

use vstd::prelude::*;
use vstd::string::StrSliceExecFns;
use vstd::string::StringExecFns;

verus! {

/// Sequence `s` with its trailing spaces removed.
pub open spec fn rtrim(s: Seq<char>) -> Seq<char>
    decreases s.len(),
{
    if s.len() > 0 && s[s.len() - 1] == ' ' {
        rtrim(s.drop_last())
    } else {
        s
    }
}

/// Sequence `s` with its leading spaces removed.
pub open spec fn ltrim(s: Seq<char>) -> Seq<char>
    decreases s.len(),
{
    if s.len() > 0 && s[0] == ' ' {
        ltrim(s.drop_first())
    } else {
        s
    }
}

/// Sequence `s` with leading and trailing spaces removed.
pub open spec fn trim(s: Seq<char>) -> Seq<char> {
    ltrim(rtrim(s))
}

/// Length of `s@` once trailing spaces are dropped.
pub(crate) fn rtrim_len(s: &str) -> (n: usize)
    ensures
        n <= s@.len(),
        rtrim(s@) == s@.take(n as int),
{
    let len = s.unicode_len();
    let mut n: usize = len;
    proof {
        assert(s@.take(len as int) =~= s@);
    }
    while n > 0 && s.get_char(n - 1) == ' '
        invariant
            n <= len,
            len == s@.len(),
            rtrim(s@) == rtrim(s@.take(n as int)),
        decreases n,
    {
        proof {
            assert(s@.take(n as int).drop_last() =~= s@.take(n - 1));
        }
        n = n - 1;
    }
    proof {
        if n > 0 {
            assert(s@.take(n as int)[n - 1] == s@[n - 1]);
        } else {
            assert(s@.take(0) =~= Seq::<char>::empty());
        }
    }
    n
}

/// Bounds `(lo, hi)` such that `s@.subrange(lo, hi)` is `trim(s@)`.
pub(crate) fn trim_bounds(s: &str) -> (b: (usize, usize))
    ensures
        b.0 <= b.1 <= s@.len(),
        trim(s@) == s@.subrange(b.0 as int, b.1 as int),
{
    let hi = rtrim_len(s);
    let mut lo: usize = 0;
    proof {
        assert(s@.take(hi as int) =~= s@.subrange(0, hi as int));
    }
    while lo < hi && s.get_char(lo) == ' '
        invariant
            lo <= hi,
            hi <= s@.len(),
            rtrim(s@) == s@.take(hi as int),
            ltrim(rtrim(s@)) == ltrim(s@.subrange(lo as int, hi as int)),
        decreases hi - lo,
    {
        proof {
            assert(s@.subrange(lo as int, hi as int)[0] == s@[lo as int]);
            assert(s@.subrange(lo as int, hi as int).drop_first() =~= s@.subrange(
                lo + 1,
                hi as int,
            ));
        }
        lo = lo + 1;
    }
    proof {
        if lo < hi {
            assert(s@.subrange(lo as int, hi as int)[0] == s@[lo as int]);
        }
    }
    (lo, hi)
}

/// Whether the first `n` characters of `a@` and `b@` are equal.
pub(crate) fn eq_prefix(a: &str, b: &str, n: usize) -> (r: bool)
    requires
        n <= a@.len(),
        n <= b@.len(),
    ensures
        r == (a@.take(n as int) == b@.take(n as int)),
{
    let mut i: usize = 0;
    while i < n
        invariant
            i <= n,
            n <= a@.len(),
            n <= b@.len(),
            forall|j: int| 0 <= j < i ==> a@[j] == b@[j],
        decreases n - i,
    {
        if a.get_char(i) != b.get_char(i) {
            proof {
                assert(a@.take(n as int)[i as int] != b@.take(n as int)[i as int]);
            }
            return false;
        }
        i = i + 1;
    }
    proof {
        assert(a@.take(n as int) =~= b@.take(n as int));
    }
    true
}

/// The trimmed field of `line@` between character columns `from` and `to`,
/// as an owned string.
pub(crate) fn trimmed_field(line: &str, from: usize, to: usize) -> (r: String)
    requires
        from <= to,
        to <= line@.len(),
    ensures
        r@ == trim(line@.subrange(from as int, to as int)),
{
    let sub = line.substring_char(from, to);
    let (lo, hi) = trim_bounds(sub);
    let t = sub.substring_char(lo, hi);
    String::from_str(t)
}

} // verus!
