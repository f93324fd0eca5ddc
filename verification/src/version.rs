//! Release versions: three numbers with a total order and a text form.

use crate::text::{
    chars_of, decimal_digits, lemma_decimal_digits, lemma_digits_free_of, lemma_numeral_of_digits,
    lemma_split_append, lemma_split_single, numeral_i32, parse_i32, push_decimal, split, split_on,
};
use std::cmp::Ordering;
use vstd::prelude::*;
use vstd::std_specs::cmp::PartialOrdSpecImpl;

verus! {

/// A release version `major.minor.patch`. No part is negative. `0.0.0` stands
/// for "no version known" and comes before every release.
#[derive(Debug, Clone, Copy, PartialEq, Eq, Structural, Ord)]
pub struct Version {
    major: i32,
    minor: i32,
    patch: i32,
}

/// `t` is the triple of a version: no part is negative, and each fits the
/// machine type that holds it.
pub open spec fn is_version(t: (int, int, int)) -> bool {
    &&& 0 <= t.0 <= i32::MAX
    &&& 0 <= t.1 <= i32::MAX
    &&& 0 <= t.2 <= i32::MAX
}

/// `a` comes strictly before `b`: the first part in which they differ is
/// smaller in `a`.
pub open spec fn precedes(a: (int, int, int), b: (int, int, int)) -> bool {
    a.0 < b.0 || (a.0 == b.0 && (a.1 < b.1 || (a.1 == b.1 && a.2 < b.2)))
}

/// `a` comes before `b` or is `b`.
pub open spec fn at_most(a: (int, int, int), b: (int, int, int)) -> bool {
    precedes(a, b) || a == b
}

/// How `a` stands to `b` in the order of versions.
pub open spec fn order_of(a: (int, int, int), b: (int, int, int)) -> Ordering {
    if precedes(a, b) {
        Ordering::Less
    } else if a == b {
        Ordering::Equal
    } else {
        Ordering::Greater
    }
}

/// The canonical text of a version: the three parts in decimal, without
/// padding, with a dot between them.
pub open spec fn format_spec(t: (int, int, int)) -> Seq<char> {
    decimal_digits(t.0 as nat) + seq!['.'] + decimal_digits(t.1 as nat) + seq!['.']
        + decimal_digits(t.2 as nat)
}

/// What one field of a version text stands for: a numeral in the range of
/// `i32` that is not negative.
pub open spec fn field_spec(field: Seq<char>) -> Option<int> {
    match numeral_i32(field) {
        Some(n) => if n >= 0 {
            Some(n)
        } else {
            None
        },
        None => None,
    }
}

/// The version that `s` writes: exactly three fields between dots, each of
/// them a field as `field_spec` has it. Anything else is no version.
pub open spec fn parse_spec(s: Seq<char>) -> Option<(int, int, int)> {
    let fields = split(s, '.');
    if fields.len() == 3 && field_spec(fields[0]) is Some && field_spec(fields[1]) is Some
        && field_spec(fields[2]) is Some {
        Some((field_spec(fields[0])->0, field_spec(fields[1])->0, field_spec(fields[2])->0))
    } else {
        None
    }
}

impl View for Version {
    type V = (int, int, int);

    closed spec fn view(&self) -> (int, int, int) {
        (self.major as int, self.minor as int, self.patch as int)
    }
}

impl Version {
    /// What holds of every version that the program holds.
    #[verifier::type_invariant]
    pub open spec fn valid(self) -> bool {
        is_version(self@)
    }

    /// The version with the given parts, if none of them is negative.
    pub fn new(major: i32, minor: i32, patch: i32) -> (r: Option<Version>)
        ensures
            r is Some <==> major >= 0 && minor >= 0 && patch >= 0,
            r matches Some(v) ==> v@ == (major as int, minor as int, patch as int),
    {
        if major >= 0 && minor >= 0 && patch >= 0 {
            Some(Version { major, minor, patch })
        } else {
            None
        }
    }

    /// The first part.
    pub fn major(&self) -> (n: i32)
        ensures
            n == self@.0,
            n >= 0,
    {
        proof {
            use_type_invariant(self);
        }
        self.major
    }

    /// The second part.
    pub fn minor(&self) -> (n: i32)
        ensures
            n == self@.1,
            n >= 0,
    {
        proof {
            use_type_invariant(self);
        }
        self.minor
    }

    /// The third part.
    pub fn patch(&self) -> (n: i32)
        ensures
            n == self@.2,
            n >= 0,
    {
        proof {
            use_type_invariant(self);
        }
        self.patch
    }

    /// Reads a version from its text. A text that is not exactly three
    /// numerals between dots, or that has a negative part, is no version.
    /// Blanks are not trimmed, and leading zeros do not matter.
    pub fn from_str(s: &str) -> (r: Option<Version>)
        ensures
            match parse_spec(s@) {
                Some(t) => r matches Some(v) && v@ == t,
                None => r is None,
            },
    {
        let chars = chars_of(s);
        let fields = split_on(&chars, '.');
        if fields.len() != 3 {
            return None;
        }
        let major = match read_field(&fields[0]) {
            Some(n) => n,
            None => {
                return None;
            },
        };
        let minor = match read_field(&fields[1]) {
            Some(n) => n,
            None => {
                return None;
            },
        };
        let patch = match read_field(&fields[2]) {
            Some(n) => n,
            None => {
                return None;
            },
        };
        Some(Version { major, minor, patch })
    }

    /// The canonical text `major.minor.patch`.
    pub fn to_string(&self) -> (text: String)
        ensures
            text@ == format_spec(self@),
    {
        proof {
            use_type_invariant(self);
            reveal_strlit(".");
        }
        let mut text = String::new();
        push_decimal(&mut text, self.major as u64);
        text.append(".");
        push_decimal(&mut text, self.minor as u64);
        text.append(".");
        push_decimal(&mut text, self.patch as u64);
        text
    }

    /// How this version stands to `other`.
    pub fn compare(&self, other: &Version) -> (r: Ordering)
        ensures
            r == order_of(self@, other@),
    {
        if self.major < other.major {
            Ordering::Less
        } else if self.major > other.major {
            Ordering::Greater
        } else if self.minor < other.minor {
            Ordering::Less
        } else if self.minor > other.minor {
            Ordering::Greater
        } else if self.patch < other.patch {
            Ordering::Less
        } else if self.patch > other.patch {
            Ordering::Greater
        } else {
            Ordering::Equal
        }
    }
}

/// Reads one field of a version text.
fn read_field(field: &Vec<char>) -> (r: Option<i32>)
    ensures
        match field_spec(field@) {
            Some(n) => r == Some(n as i32),
            None => r is None,
        },
{
    match parse_i32(field) {
        Some(n) => if n >= 0 {
            Some(n)
        } else {
            None
        },
        None => None,
    }
}

impl Default for Version {
    /// The version `0.0.0`.
    fn default() -> (v: Version)
        ensures
            v@ == (0int, 0int, 0int),
    {
        Version { major: 0, minor: 0, patch: 0 }
    }
}

impl PartialOrd for Version {
    fn partial_cmp(&self, other: &Version) -> (r: Option<Ordering>) {
        Some(self.compare(other))
    }
}

impl PartialOrdSpecImpl for Version {
    open spec fn obeys_partial_cmp_spec() -> bool {
        true
    }

    open spec fn partial_cmp_spec(&self, other: &Version) -> Option<Ordering> {
        Some(order_of(self@, other@))
    }
}

/// Two versions with the same triple are the same version.
pub proof fn lemma_view_determines(a: Version, b: Version)
    ensures
        a@ == b@ <==> a == b,
{
}

/// Reading the canonical text of a version gives the version back.
pub proof fn lemma_parse_format(t: (int, int, int))
    requires
        is_version(t),
    ensures
        parse_spec(format_spec(t)) == Some(t),
{
    let a = decimal_digits(t.0 as nat);
    let b = decimal_digits(t.1 as nat);
    let c = decimal_digits(t.2 as nat);
    lemma_decimal_digits(t.0 as nat);
    lemma_decimal_digits(t.1 as nat);
    lemma_decimal_digits(t.2 as nat);
    lemma_digits_free_of(a, '.');
    lemma_digits_free_of(b, '.');
    lemma_digits_free_of(c, '.');
    lemma_split_single(a, '.');
    lemma_split_append(a, b, '.');
    lemma_split_append(a + seq!['.'] + b, c, '.');
    lemma_numeral_of_digits(t.0 as nat);
    lemma_numeral_of_digits(t.1 as nat);
    lemma_numeral_of_digits(t.2 as nat);
}

/// Of two versions, one comes before the other or they are the same, and
/// never two of these at once.
pub proof fn lemma_order_total(a: (int, int, int), b: (int, int, int))
    ensures
        at_most(a, b) || at_most(b, a),
        precedes(a, b) || a == b || precedes(b, a),
        !(precedes(a, b) && precedes(b, a)),
        !(precedes(a, b) && a == b),
{
}

/// Two versions that each come no later than the other are the same.
pub proof fn lemma_order_antisymmetric(a: (int, int, int), b: (int, int, int))
    requires
        at_most(a, b),
        at_most(b, a),
    ensures
        a == b,
{
}

/// The order of versions is transitive.
pub proof fn lemma_order_transitive(a: (int, int, int), b: (int, int, int), c: (int, int, int))
    requires
        at_most(a, b),
        at_most(b, c),
    ensures
        at_most(a, c),
        precedes(a, b) || precedes(b, c) ==> precedes(a, c),
{
}

/// What a comparison gives says how the two versions stand in the order,
/// and turning a comparison round turns its result round.
pub proof fn lemma_order_of(a: (int, int, int), b: (int, int, int))
    ensures
        order_of(a, b) == Ordering::Less <==> precedes(a, b),
        order_of(a, b) == Ordering::Equal <==> a == b,
        order_of(a, b) == Ordering::Greater <==> precedes(b, a),
        order_of(a, b) != Ordering::Greater <==> at_most(a, b),
        order_of(a, b) == Ordering::Less <==> order_of(b, a) == Ordering::Greater,
{
}

/// No version comes before `0.0.0`.
pub proof fn lemma_zero_is_least(t: (int, int, int))
    requires
        is_version(t),
    ensures
        at_most((0int, 0int, 0int), t),
{
}

} // verus!
