//! Versions of an algorithm (`latest`, `1.2`, `1.2.3` or a git hash).

use vstd::prelude::*;
use vstd::string::*;
use crate::num;
use crate::num::{parse_unsigned_exec, push_decimal};
use crate::text;
use crate::text::split_str;

verus! {

/// Version of an algorithm
pub enum Version<'a> {
    /// Latest published version
    Latest,
    /// Latest published version with the same minor version, e.g., 1.2 implies 1.2.*
    Minor(u32, u32),
    /// A specific published revision, e.g., 0.1.0
    Revision(u32, u32, u32),
    /// A specific git hash - only works for the algorithm's author
    Hash(&'a str),
}

/// The separator between the numbers of a version.
pub open spec fn dot() -> Seq<char> {
    seq!['.']
}

/// The text of the latest version.
pub open spec fn latest_text() -> Seq<char> {
    seq!['l', 'a', 't', 'e', 's', 't']
}

/// The text of a version: `latest`, `major.minor`, `major.minor.revision` or the hash.
pub open spec fn version_text(v: Version) -> Seq<char> {
    match v {
        Version::Latest => latest_text(),
        Version::Minor(major, minor) => num::decimal(major as nat) + dot() + num::decimal(
            minor as nat,
        ),
        Version::Revision(major, minor, revision) => num::decimal(major as nat) + dot()
            + num::decimal(minor as nat) + dot() + num::decimal(revision as nat),
        Version::Hash(hash) => hash@,
    }
}

/// Every piece parses as a `u32`.
pub open spec fn all_pieces_parse(p: Seq<Seq<char>>) -> bool {
    forall|i: int| 0 <= i < p.len() ==> num::parses_unsigned(#[trigger] p[i], u32::MAX as nat)
}

/// The `u32` value of a piece.
pub open spec fn piece_value(p: Seq<Seq<char>>, i: int) -> u32 {
    num::digits_value(num::unsigned_digits(p[i])) as u32
}

/// The version text names a version that `Version::from_str` accepts: it is not
/// a dotted list of numbers of a length other than 2 or 3.
pub open spec fn version_text_accepted(s: Seq<char>) -> bool {
    let p = text::split_seq(s, dot());
    all_pieces_parse(p) ==> (p.len() == 2 || p.len() == 3)
}

/// The version that `Version::from_str` reads from `s`.
pub open spec fn version_of_text<'a>(s: &'a str) -> Version<'a> {
    let p = text::split_seq(s@, dot());
    if !all_pieces_parse(p) {
        Version::Hash(s)
    } else if p.len() == 3 {
        Version::Revision(piece_value(p, 0), piece_value(p, 1), piece_value(p, 2))
    } else {
        Version::Minor(piece_value(p, 0), piece_value(p, 1))
    }
}

impl<'a> Version<'a> {
    /// Initialize a Version from a version string slice: two numbers separated
    /// by `.` are a minor version, three a revision, anything else a hash.
    pub fn from_str(version: &'a str) -> (r: Version<'a>)
        requires
            version_text_accepted(version@),
        ensures
            r == version_of_text(version),
    {
        proof {
            reveal_strlit(".");
            assert("."@ =~= dot());
        }
        let pieces = split_str(version, ".");
        let ghost p = text::split_seq(version@, dot());
        let n = pieces.len();
        let mut values: Vec<u32> = Vec::new();
        let mut i: usize = 0;
        while i < n
            invariant
                n == pieces@.len(),
                text::views(pieces@) == p,
                p == text::split_seq(version@, dot()),
                version_text_accepted(version@),
                i <= n,
                values@.len() == i,
                forall|j: int|
                    0 <= j < i ==> num::parses_unsigned(#[trigger] p[j], u32::MAX as nat)
                        && values@[j] == piece_value(p, j),
            decreases n - i,
        {
            assert(p[i as int] == pieces@[i as int]@);
            match parse_unsigned_exec(pieces[i].as_str(), 4294967295) {
                Some(v) => {
                    values.push(v as u32);
                },
                None => {
                    assert(!num::parses_unsigned(p[i as int], u32::MAX as nat));
                    assert(!all_pieces_parse(p));
                    return Version::Hash(version);
                },
            }
            i = i + 1;
        }
        if n == 3 {
            Version::Revision(values[0], values[1], values[2])
        } else {
            Version::Minor(values[0], values[1])
        }
    }

    /// The text of this version (as its `Display` shows it).
    pub fn to_string(&self) -> (r: String)
        ensures
            r@ == version_text(*self),
    {
        proof {
            reveal_strlit("latest");
            reveal_strlit(".");
            assert("latest"@ =~= latest_text());
            assert("."@ =~= dot());
        }
        match self {
            Version::Latest => String::from_str("latest"),
            Version::Minor(major, minor) => {
                let mut r = String::new();
                push_decimal(&mut r, *major as u64);
                r.append(".");
                push_decimal(&mut r, *minor as u64);
                assert(r@ =~= version_text(*self));
                r
            },
            Version::Revision(major, minor, revision) => {
                let mut r = String::new();
                push_decimal(&mut r, *major as u64);
                r.append(".");
                push_decimal(&mut r, *minor as u64);
                r.append(".");
                push_decimal(&mut r, *revision as u64);
                assert(r@ =~= version_text(*self));
                r
            },
            Version::Hash(hash) => String::from_str(hash),
        }
    }
}

/// The text of two numbers joined by `.` splits back into the two numbers.
proof fn lemma_split_dotted(a: Seq<char>, b: Seq<char>)
    requires
        forall|i: int| 0 <= i < a.len() ==> a[i] != '.',
        forall|i: int| 0 <= i < b.len() ==> b[i] != '.',
    ensures
        text::split_seq(a + dot() + b, dot()) == seq![a, b],
{
    assert forall|j: int| 0 <= j implies !text::match_at(a, dot(), j) by {
        text::lemma_match_char(a, '.', j);
    }
    assert forall|j: int| 0 <= j implies !text::match_at(b, dot(), j) by {
        text::lemma_match_char(b, '.', j);
    }
    text::lemma_split_char_concat(a, b, '.');
    text::lemma_split_no_contains(a, dot());
    text::lemma_split_no_contains(b, dot());
}

/// A numbered version read back from its text is the same version.
pub proof fn law_version_text_roundtrip<'a>(v: Version<'a>, s: &'a str)
    requires
        v is Minor || v is Revision,
        s@ == version_text(v),
    ensures
        version_text_accepted(s@),
        version_of_text(s) == v,
{
    match v {
        Version::Minor(a, b) => {
            num::lemma_decimal_digits(a as nat);
            num::lemma_decimal_digits(b as nat);
            let da = num::decimal(a as nat);
            let db = num::decimal(b as nat);
            lemma_split_dotted(da, db);
            let p = text::split_seq(s@, dot());
            assert(p =~= seq![da, db]);
            num::law_parse_decimal(a as nat, u32::MAX as nat);
            num::law_parse_decimal(b as nat, u32::MAX as nat);
            assert(p[0] == da && p[1] == db);
            assert(all_pieces_parse(p));
        },
        Version::Revision(a, b, c) => {
            num::lemma_decimal_digits(a as nat);
            num::lemma_decimal_digits(b as nat);
            num::lemma_decimal_digits(c as nat);
            let da = num::decimal(a as nat);
            let db = num::decimal(b as nat);
            let dc = num::decimal(c as nat);
            let ab = da + dot() + db;
            assert(s@ == ab + dot() + dc);
            text::lemma_split_char_concat(ab, dc, '.');
            lemma_split_dotted(da, db);
            assert forall|j: int| 0 <= j implies !text::match_at(dc, dot(), j) by {
                text::lemma_match_char(dc, '.', j);
            }
            text::lemma_split_no_contains(dc, dot());
            let p = text::split_seq(s@, dot());
            assert(p =~= seq![da, db, dc]);
            num::law_parse_decimal(a as nat, u32::MAX as nat);
            num::law_parse_decimal(b as nat, u32::MAX as nat);
            num::law_parse_decimal(c as nat, u32::MAX as nat);
            assert(all_pieces_parse(p));
        },
        _ => {},
    }
}

} // verus!
