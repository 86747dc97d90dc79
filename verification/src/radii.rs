//! Radius-table pattern matching.
//!
//! A radius table is an ordered list of (residue pattern, atom pattern)
//! records. An atom is assigned the first record whose two patterns both
//! match; a pattern may end in `*` (prefix match) or start with `*` (match
//! anything). Atoms that match no record fall back to a generic element
//! record (`***` residue pattern, single-letter atom field).

use crate::text::eq_prefix;
use crate::text::rtrim;
use crate::text::rtrim_len;
use crate::text::trim;
use crate::text::trim_bounds;
use vstd::prelude::*;
use vstd::string::StrSliceExecFns;

verus! {

/// Index of the first `*` in `p`, or `p.len()` if there is none.
pub open spec fn star_index(p: Seq<char>) -> int
    decreases p.len(),
{
    if p.len() == 0 {
        0
    } else if p[0] == '*' {
        0
    } else {
        1 + star_index(p.drop_first())
    }
}

proof fn lemma_star_index_bounds(p: Seq<char>)
    ensures
        0 <= star_index(p) <= p.len(),
        forall|j: int| 0 <= j < star_index(p) ==> p[j] != '*',
        star_index(p) < p.len() ==> p[star_index(p)] == '*',
    decreases p.len(),
{
    if p.len() == 0 {
    } else if p[0] == '*' {
    } else {
        lemma_star_index_bounds(p.drop_first());
        assert forall|j: int| 0 <= j < star_index(p) implies p[j] != '*' by {
            if j > 0 {
                assert(p.drop_first()[j - 1] == p[j]);
            }
        }
        if star_index(p) < p.len() {
            assert(p.drop_first()[star_index(p) - 1] == p[star_index(p)]);
        }
    }
}

/// `star_index(p)` is the unique index up to which `p` is star-free.
proof fn lemma_star_index_is(p: Seq<char>, i: int)
    requires
        0 <= i <= p.len(),
        forall|j: int| 0 <= j < i ==> p[j] != '*',
        i < p.len() ==> p[i] == '*',
    ensures
        star_index(p) == i,
    decreases p.len(),
{
    if p.len() == 0 {
    } else if p[0] == '*' {
        assert(i == 0);
    } else {
        assert(i > 0);
        assert forall|j: int| 0 <= j < i - 1 implies p.drop_first()[j] != '*' by {
            assert(p.drop_first()[j] == p[j + 1]);
        }
        if i - 1 < p.drop_first().len() {
            assert(p.drop_first()[i - 1] == p[i]);
        }
        lemma_star_index_is(p.drop_first(), i - 1);
    }
}

/// Whether the (right-trimmed) query matches the (right-trimmed) pattern:
/// a pattern starting with `*` matches anything; a pattern with a `*` at
/// position `n` matches any query whose first `n` characters equal the
/// pattern's; a pattern without `*` matches only the equal query.
pub open spec fn wildcard_matches(query: Seq<char>, pattern: Seq<char>) -> bool {
    let q = rtrim(query);
    let p = rtrim(pattern);
    if p.len() > 0 && p[0] == '*' {
        true
    } else if star_index(p) < p.len() {
        q.len() >= star_index(p) && q.subrange(0, star_index(p)) == p.subrange(0, star_index(p))
    } else {
        q == p
    }
}

/// Index of the first `*` among the first `end` characters of `s@`,
/// or `end` if there is none.
fn find_star(s: &str, end: usize) -> (i: usize)
    requires
        end <= s@.len(),
    ensures
        i <= end,
        forall|j: int| 0 <= j < i ==> s@[j] != '*',
        i < end ==> s@[i as int] == '*',
{
    let mut i: usize = 0;
    while i < end
        invariant
            i <= end,
            end <= s@.len(),
            forall|j: int| 0 <= j < i ==> s@[j] != '*',
        decreases end - i,
    {
        if s.get_char(i) == '*' {
            return i;
        }
        i = i + 1;
    }
    i
}

/// Does `query` match `pattern`? Both are right-trimmed of spaces first;
/// a leading `*` in the pattern matches anything, an inner `*` makes the
/// characters before it a required prefix, and a star-free pattern must
/// equal the query exactly.
pub fn wildcard_match(query: &str, pattern: &str) -> (r: bool)
    ensures
        r == wildcard_matches(query@, pattern@),
{
    proof {
        lemma_star_index_bounds(rtrim(pattern@));
    }
    let qn = rtrim_len(query);
    let pn = rtrim_len(pattern);
    if pn > 0 && pattern.get_char(0) == '*' {
        proof {
            assert(rtrim(pattern@)[0] == pattern@[0]);
        }
        return true;
    }
    let star = find_star(pattern, pn);
    proof {
        assert forall|j: int| 0 <= j < star implies rtrim(pattern@)[j] != '*' by {
            assert(rtrim(pattern@)[j] == pattern@[j]);
        }
        if star < pn {
            assert(rtrim(pattern@)[star as int] == pattern@[star as int]);
        }
        lemma_star_index_is(rtrim(pattern@), star as int);
    }
    if star < pn {
        if qn < star {
            return false;
        }
        let r = eq_prefix(query, pattern, star);
        proof {
            assert(rtrim(query@).subrange(0, star as int) =~= query@.take(star as int));
            assert(rtrim(pattern@).subrange(0, star as int) =~= pattern@.take(star as int));
        }
        r
    } else {
        if qn != pn {
            proof {
                assert(rtrim(query@).len() != rtrim(pattern@).len());
            }
            return false;
        }
        let r = eq_prefix(query, pattern, qn);
        proof {
            assert(rtrim(query@) == query@.take(qn as int));
            assert(rtrim(pattern@) == pattern@.take(pn as int));
        }
        r
    }
}

/// One record of the radius table: the residue pattern and the atom pattern.
/// The radius value itself is numeric data and is kept by the caller, side
/// by side with the table, under the same index.
pub struct RadiusPattern {
    pub residue: String,
    pub atom: String,
}

/// Whether a record matches the given residue and atom name.
pub open spec fn entry_matches(residue: Seq<char>, atom_name: Seq<char>, e: RadiusPattern) -> bool {
    wildcard_matches(residue, e.residue@) && wildcard_matches(atom_name, e.atom@)
}

/// No record of `t` matches the residue and atom name.
pub open spec fn no_direct_match(
    residue: Seq<char>,
    atom_name: Seq<char>,
    t: Seq<RadiusPattern>,
) -> bool {
    forall|j: int| 0 <= j < t.len() ==> !entry_matches(residue, atom_name, t[j])
}

/// `t[i]` is the first record matching the residue and atom name.
pub open spec fn first_direct_at(
    residue: Seq<char>,
    atom_name: Seq<char>,
    t: Seq<RadiusPattern>,
    i: int,
) -> bool {
    &&& 0 <= i < t.len()
    &&& entry_matches(residue, atom_name, t[i])
    &&& forall|j: int| 0 <= j < i ==> !entry_matches(residue, atom_name, t[j])
}

/// Index of the first record whose two patterns both match, searching in
/// table order.
pub fn find_radius_entry(residue: &str, atom_name: &str, table: &Vec<RadiusPattern>) -> (r: Option<
    usize,
>)
    ensures
        match r {
            Some(i) => first_direct_at(residue@, atom_name@, table@, i as int),
            None => no_direct_match(residue@, atom_name@, table@),
        },
{
    let mut i: usize = 0;
    while i < table.len()
        invariant
            i <= table@.len(),
            forall|j: int| 0 <= j < i ==> !entry_matches(residue@, atom_name@, table@[j]),
        decreases table@.len() - i,
    {
        let e = &table[i];
        if wildcard_match(residue, e.residue.as_str()) && wildcard_match(
            atom_name,
            e.atom.as_str(),
        ) {
            return Some(i);
        }
        i = i + 1;
    }
    None
}

/// An ASCII letter.
pub open spec fn is_letter(c: char) -> bool {
    ('A' <= c && c <= 'Z') || ('a' <= c && c <= 'z')
}

/// The ASCII upper-case form of `c`; other characters are unchanged.
pub open spec fn to_upper(c: char) -> char {
    if 'a' <= c && c <= 'z' {
        ((c as u8) - 32) as char
    } else {
        c
    }
}

/// Index of the first ASCII letter in `s`, or `s.len()` if there is none.
pub open spec fn first_letter(s: Seq<char>) -> int
    decreases s.len(),
{
    if s.len() == 0 {
        0
    } else if is_letter(s[0]) {
        0
    } else {
        1 + first_letter(s.drop_first())
    }
}

/// The atom name holds an element code: some character is an ASCII letter.
pub open spec fn has_element(s: Seq<char>) -> bool {
    first_letter(s) < s.len()
}

/// The element code of an atom name: its first ASCII letter, upper-cased.
pub open spec fn element_of(s: Seq<char>) -> char {
    to_upper(s[first_letter(s)])
}

/// `first_letter(s)` is the unique index up to which `s` is letter-free.
proof fn lemma_first_letter_is(s: Seq<char>, i: int)
    requires
        0 <= i <= s.len(),
        forall|j: int| 0 <= j < i ==> !is_letter(#[trigger] s[j]),
        i < s.len() ==> is_letter(s[i]),
    ensures
        first_letter(s) == i,
    decreases s.len(),
{
    if s.len() == 0 {
    } else if is_letter(s[0]) {
        assert(i == 0);
    } else {
        assert(i > 0);
        assert forall|j: int| 0 <= j < i - 1 implies !is_letter(#[trigger] s.drop_first()[j]) by {
            assert(s.drop_first()[j] == s[j + 1]);
        }
        if i - 1 < s.drop_first().len() {
            assert(s.drop_first()[i - 1] == s[i]);
        }
        lemma_first_letter_is(s.drop_first(), i - 1);
    }
}

/// The element code of `s@`: its first ASCII letter, upper-cased, or
/// `None` when the name holds no letter.
pub fn element_char(s: &str) -> (r: Option<char>)
    ensures
        match r {
            Some(c) => has_element(s@) && c == element_of(s@),
            None => !has_element(s@),
        },
{
    let len = s.unicode_len();
    let mut i: usize = 0;
    while i < len
        invariant
            i <= len,
            len == s@.len(),
            forall|j: int| 0 <= j < i ==> !is_letter(#[trigger] s@[j]),
        decreases len - i,
    {
        let c = s.get_char(i);
        if ('A' <= c && c <= 'Z') || ('a' <= c && c <= 'z') {
            proof {
                lemma_first_letter_is(s@, i as int);
            }
            if 'a' <= c && c <= 'z' {
                return Some(((c as u8) - 32) as char);
            }
            return Some(c);
        }
        i = i + 1;
    }
    proof {
        lemma_first_letter_is(s@, len as int);
    }
    None
}

/// A generic element record for `elem`: the residue pattern begins with
/// `***` and the atom field is exactly the one-letter element code.
pub open spec fn generic_matches(elem: char, e: RadiusPattern) -> bool {
    let res = trim(e.residue@);
    let atm = trim(e.atom@);
    &&& res.len() >= 3
    &&& res[0] == '*'
    &&& res[1] == '*'
    &&& res[2] == '*'
    &&& atm == seq![elem]
}

/// No record of `t` is a generic element record for `elem`.
pub open spec fn no_generic_match(elem: char, t: Seq<RadiusPattern>) -> bool {
    forall|j: int| 0 <= j < t.len() ==> !generic_matches(elem, t[j])
}

/// `t[i]` is the first generic element record for `elem`.
pub open spec fn first_generic_at(elem: char, t: Seq<RadiusPattern>, i: int) -> bool {
    &&& 0 <= i < t.len()
    &&& generic_matches(elem, t[i])
    &&& forall|j: int| 0 <= j < i ==> !generic_matches(elem, t[j])
}

/// Whether one record is a generic element record for `elem`.
fn is_generic_entry(elem: char, e: &RadiusPattern) -> (r: bool)
    ensures
        r == generic_matches(elem, *e),
{
    let (rlo, rhi) = trim_bounds(e.residue.as_str());
    if rhi - rlo < 3 {
        return false;
    }
    proof {
        assert(trim(e.residue@)[0] == e.residue@[rlo as int]);
        assert(trim(e.residue@)[1] == e.residue@[rlo + 1]);
        assert(trim(e.residue@)[2] == e.residue@[rlo + 2]);
    }
    let res = e.residue.as_str();
    if res.get_char(rlo) != '*' || res.get_char(rlo + 1) != '*' || res.get_char(rlo + 2) != '*' {
        return false;
    }
    let (alo, ahi) = trim_bounds(e.atom.as_str());
    if ahi - alo != 1 {
        proof {
            assert(trim(e.atom@).len() != 1);
        }
        return false;
    }
    proof {
        assert(trim(e.atom@)[0] == e.atom@[alo as int]);
        assert(trim(e.atom@).len() == 1);
    }
    let r = e.atom.as_str().get_char(alo) == elem;
    proof {
        assert(trim(e.atom@) == seq![elem] <==> trim(e.atom@)[0] == elem) by {
            if trim(e.atom@)[0] == elem {
                assert(trim(e.atom@) =~= seq![elem]);
            }
        }
    }
    r
}

/// Index of the first generic element record for `elem`, in table order.
pub fn find_generic_entry(elem: char, table: &Vec<RadiusPattern>) -> (r: Option<usize>)
    ensures
        match r {
            Some(i) => first_generic_at(elem, table@, i as int),
            None => no_generic_match(elem, table@),
        },
{
    let mut i: usize = 0;
    while i < table.len()
        invariant
            i <= table@.len(),
            forall|j: int| 0 <= j < i ==> !generic_matches(elem, table@[j]),
        decreases table@.len() - i,
    {
        if is_generic_entry(elem, &table[i]) {
            return Some(i);
        }
        i = i + 1;
    }
    None
}

/// Index of the record that assigns the atom its radius: the first record
/// whose patterns match the residue and atom name, or, when none does, the
/// first generic element record for the atom name's element code. `None`
/// when neither search finds a record.
pub fn resolve_radius_entry(residue: &str, atom_name: &str, table: &Vec<RadiusPattern>) -> (r:
    Option<usize>)
    ensures
        match r {
            Some(i) => first_direct_at(residue@, atom_name@, table@, i as int) || (no_direct_match(
                residue@,
                atom_name@,
                table@,
            ) && has_element(atom_name@) && first_generic_at(
                element_of(atom_name@),
                table@,
                i as int,
            )),
            None => no_direct_match(residue@, atom_name@, table@) && (!has_element(atom_name@)
                || no_generic_match(element_of(atom_name@), table@)),
        },
{
    if let Some(i) = find_radius_entry(residue, atom_name, table) {
        return Some(i);
    }
    if let Some(elem) = element_char(atom_name) {
        return find_generic_entry(elem, table);
    }
    None
}

} // verus!
