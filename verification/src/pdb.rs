//! Field extraction for PDB ATOM records.
//!
//! An ATOM record is read by fixed character columns: atom name at 12..16,
//! alternate location at 16, residue name at 17..20, chain identifier at
//! 21, and the three coordinates at 30..38, 38..46 and 46..54, with the
//! element symbol at 76..78 when the line is long enough. Lines that are
//! not ATOM records, are shorter than 54 columns, carry a non-primary
//! alternate location, or name a hydrogen are rejected.

use crate::text::trim;
use crate::text::trimmed_field;
use vstd::prelude::*;
use vstd::string::StrSliceExecFns;
use vstd::string::StringExecFns;

verus! {

/// The line begins with the record name `ATOM`.
pub open spec fn is_atom_record(s: Seq<char>) -> bool {
    s.len() >= 4 && s[0] == 'A' && s[1] == 'T' && s[2] == 'O' && s[3] == 'M'
}

/// The alternate-location column holds a blank or the primary marker `A`.
pub open spec fn altloc_accepted(s: Seq<char>) -> bool {
    s[16] == ' ' || s[16] == 'A'
}

/// The trimmed atom-name field, columns 12..16.
pub open spec fn name_field(s: Seq<char>) -> Seq<char> {
    trim(s.subrange(12, 16))
}

/// The trimmed residue-name field, columns 17..20.
pub open spec fn residue_field(s: Seq<char>) -> Seq<char> {
    trim(s.subrange(17, 20))
}

/// The chain-identifier field, column 21.
pub open spec fn chain_field(s: Seq<char>) -> Seq<char> {
    s.subrange(21, 22)
}

/// The trimmed x-coordinate field, columns 30..38.
pub open spec fn x_field(s: Seq<char>) -> Seq<char> {
    trim(s.subrange(30, 38))
}

/// The trimmed y-coordinate field, columns 38..46.
pub open spec fn y_field(s: Seq<char>) -> Seq<char> {
    trim(s.subrange(38, 46))
}

/// The trimmed z-coordinate field, columns 46..54.
pub open spec fn z_field(s: Seq<char>) -> Seq<char> {
    trim(s.subrange(46, 54))
}

/// The trimmed element field, columns 76..78, or empty when the line ends
/// before it.
pub open spec fn element_field(s: Seq<char>) -> Seq<char> {
    if s.len() >= 78 {
        trim(s.subrange(76, 78))
    } else {
        Seq::<char>::empty()
    }
}

/// An ASCII digit.
pub open spec fn is_digit(c: char) -> bool {
    '0' <= c && c <= '9'
}

/// The record names a hydrogen: the element field is `H` in either case,
/// or the atom name starts or ends with `H`, or it holds an `H` and starts
/// with a digit.
pub open spec fn is_hydrogen(s: Seq<char>) -> bool {
    let name = name_field(s);
    let el = element_field(s);
    ||| el.len() == 1 && (el[0] == 'H' || el[0] == 'h')
    ||| name.len() > 0 && name[0] == 'H'
    ||| name.len() > 0 && name[name.len() - 1] == 'H'
    ||| (exists|j: int| 0 <= j < name.len() && name[j] == 'H') && name.len() > 0 && is_digit(
        name[0],
    )
}

/// The line is an accepted ATOM record: long enough, primary alternate
/// location, not a hydrogen.
pub open spec fn line_accepted(s: Seq<char>) -> bool {
    &&& is_atom_record(s)
    &&& s.len() >= 54
    &&& altloc_accepted(s)
    &&& !is_hydrogen(s)
}

/// The fields of an accepted ATOM record, as owned strings. The
/// coordinates are kept as text: their numeric reading is the caller's.
pub struct AtomLine {
    pub name: String,
    pub residue: String,
    pub chain: String,
    pub x: String,
    pub y: String,
    pub z: String,
}

/// All fields of `a` equal the corresponding fields of the line `s`.
pub open spec fn fields_of(a: AtomLine, s: Seq<char>) -> bool {
    &&& a.name@ == name_field(s)
    &&& a.residue@ == residue_field(s)
    &&& a.chain@ == chain_field(s)
    &&& a.x@ == x_field(s)
    &&& a.y@ == y_field(s)
    &&& a.z@ == z_field(s)
}

/// Whether the trimmed atom name holds an `H` anywhere.
fn name_contains_h(name: &str) -> (r: bool)
    ensures
        r == exists|j: int| 0 <= j < name@.len() && name@[j] == 'H',
{
    let len = name.unicode_len();
    let mut i: usize = 0;
    while i < len
        invariant
            i <= len,
            len == name@.len(),
            forall|j: int| 0 <= j < i ==> name@[j] != 'H',
        decreases len - i,
    {
        if name.get_char(i) == 'H' {
            proof {
                assert(0 <= i < name@.len() && name@[i as int] == 'H');
            }
            return true;
        }
        i = i + 1;
    }
    false
}

/// Read one line as a PDB ATOM record. `Some` holds the six fields of an
/// accepted record; `None` says the line is no ATOM record, is too short,
/// carries a non-primary alternate location, or names a hydrogen.
pub fn parse_atom_line(line: &str) -> (r: Option<AtomLine>)
    ensures
        match r {
            Some(a) => line_accepted(line@) && fields_of(a, line@),
            None => !line_accepted(line@),
        },
{
    let len = line.unicode_len();
    if len < 4 {
        return None;
    }
    if line.get_char(0) != 'A' || line.get_char(1) != 'T' || line.get_char(2) != 'O'
        || line.get_char(3) != 'M' {
        return None;
    }
    if len < 54 {
        return None;
    }
    let alt = line.get_char(16);
    if alt != ' ' && alt != 'A' {
        return None;
    }
    let name = trimmed_field(line, 12, 16);
    let element = if len >= 78 {
        trimmed_field(line, 76, 78)
    } else {
        String::new()
    };
    let el = element.as_str();
    if el.unicode_len() == 1 {
        let c = el.get_char(0);
        if c == 'H' || c == 'h' {
            return None;
        }
    }
    let nm = name.as_str();
    let nlen = nm.unicode_len();
    if nlen > 0 {
        if nm.get_char(0) == 'H' {
            return None;
        }
        if nm.get_char(nlen - 1) == 'H' {
            return None;
        }
        let first = nm.get_char(0);
        if '0' <= first && first <= '9' && name_contains_h(nm) {
            return None;
        }
    }
    proof {
        assert(!is_hydrogen(line@));
    }
    let residue = trimmed_field(line, 17, 20);
    let chain = String::from_str(line.substring_char(21, 22));
    let x = trimmed_field(line, 30, 38);
    let y = trimmed_field(line, 38, 46);
    let z = trimmed_field(line, 46, 54);
    Some(AtomLine { name, residue, chain, x, y, z })
}

} // verus!
