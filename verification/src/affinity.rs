//! The storage class that a column's declared type stands for.

use vstd::prelude::*;
use vstd::string::StrSliceExecFns;
use crate::text::{chars_of, contains, occurs_in, prefix_len, prefix_length};

verus! {

/// The declared storage class of a column. It is derived once from the
/// column's type declaration and governs how its cells are shown.
#[allow(non_camel_case_types)]
#[derive(Clone, Copy, Debug, PartialEq, Eq, Structural)]
pub enum Affinity {
    NUMERIC,
    INTEGER,
    REAL,
    TEXT,
    BLOB,
}

impl Default for Affinity {
    fn default() -> (a: Affinity)
        ensures
            a == Affinity::NUMERIC,
    {
        Affinity::NUMERIC
    }
}

/// The uppercase equivalent of a text, as Unicode defines it.
pub uninterp spec fn uppercase_of(s: Seq<char>) -> Seq<char>;

/// `str::to_uppercase`: the result is the uppercase equivalent of the
/// argument, which depends on the argument alone.
#[verifier::external_body]
fn uppercased(s: &str) -> (r: String)
    ensures
        r@ == uppercase_of(s@),
{
    s.to_uppercase()
}

/// A declaration without its parenthesized suffix: `VARCHAR(255)` gives
/// `VARCHAR`.
pub open spec fn declared_base(decl: Seq<char>) -> Seq<char> {
    decl.take(prefix_len(decl, '(') as int)
}

/// The affinity of an uppercased declaration, by the first rule that applies.
pub open spec fn affinity_of_upper(upper: Seq<char>) -> Affinity {
    if occurs_in(upper, "INT"@) {
        Affinity::INTEGER
    } else if occurs_in(upper, "TEXT"@) || occurs_in(upper, "CHAR"@) || occurs_in(upper, "CLOB"@) {
        Affinity::TEXT
    } else if occurs_in(upper, "BLOB"@) || upper.len() == 0 {
        Affinity::BLOB
    } else if occurs_in(upper, "REAL"@) || occurs_in(upper, "FLOA"@) || occurs_in(upper, "DOUB"@) {
        Affinity::REAL
    } else {
        Affinity::NUMERIC
    }
}

/// The affinity of a type declaration.
pub open spec fn affinity_of(decl: Seq<char>) -> Affinity {
    affinity_of_upper(uppercase_of(declared_base(decl)))
}

/// The canonical name of an affinity.
pub open spec fn affinity_tag(a: Affinity) -> Seq<char> {
    match a {
        Affinity::NUMERIC => "NUMERIC"@,
        Affinity::INTEGER => "INTEGER"@,
        Affinity::REAL => "REAL"@,
        Affinity::TEXT => "TEXT"@,
        Affinity::BLOB => "BLOB"@,
    }
}

impl Affinity {
    /// The affinity of a declaration that is uppercased already and has no
    /// parenthesized suffix.
    pub fn of_uppercased(upper: &str) -> (a: Affinity)
        ensures
            a == affinity_of_upper(upper@),
    {
        let u = chars_of(upper);
        if contains(&u, &chars_of("INT")) {
            Affinity::INTEGER
        } else if contains(&u, &chars_of("TEXT")) || contains(&u, &chars_of("CHAR")) || contains(
            &u,
            &chars_of("CLOB"),
        ) {
            Affinity::TEXT
        } else if contains(&u, &chars_of("BLOB")) || u.len() == 0 {
            Affinity::BLOB
        } else if contains(&u, &chars_of("REAL")) || contains(&u, &chars_of("FLOA")) || contains(
            &u,
            &chars_of("DOUB"),
        ) {
            Affinity::REAL
        } else {
            Affinity::NUMERIC
        }
    }

    /// The affinity of a type declaration. Every declaration has one: an
    /// empty one is a blob, an unrecognized one is numeric.
    pub fn parse(decl: &str) -> (a: Affinity)
        ensures
            a == affinity_of(decl@),
    {
        let n = prefix_length(&chars_of(decl), '(');
        let base = decl.substring_char(0, n);
        assert(base@ == declared_base(decl@));
        let upper = uppercased(base);
        Affinity::of_uppercased(upper.as_str())
    }

    /// The canonical name of the affinity.
    pub fn type_tag(&self) -> (r: &'static str)
        ensures
            r@ == affinity_tag(*self),
    {
        match self {
            Affinity::NUMERIC => "NUMERIC",
            Affinity::INTEGER => "INTEGER",
            Affinity::REAL => "REAL",
            Affinity::TEXT => "TEXT",
            Affinity::BLOB => "BLOB",
        }
    }
}

impl std::str::FromStr for Affinity {
    type Err = String;

    fn from_str(s: &str) -> (r: Result<Self, Self::Err>)
        ensures
            r == Ok::<Affinity, String>(affinity_of(s@)),
    {
        Ok(Affinity::parse(s))
    }
}

/// The affinity of a type declaration.
pub fn parse_affinity(decl: &str) -> (a: Affinity)
    ensures
        a == affinity_of(decl@),
{
    Affinity::parse(decl)
}

} // verus!
