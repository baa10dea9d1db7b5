//! Dotted version identifiers: `major.minor` or `major.minor.patch`.

use crate::decimal::{
    append_decimal, decimal, lemma_decimal_value, lemma_parse_decimal, parse_u32, parse_u32_spec,
};
use crate::text::{chars_of, free_of, lemma_split_append, lemma_split_free, split_chars, split_on};
use std::cmp::Ordering;
use vstd::prelude::*;
use vstd::std_specs::cmp::PartialOrdSpec;

verus! {

/// A version identifier. The patch component may be absent.
#[derive(Debug, Clone, Copy, PartialEq, Eq, Structural)]
pub struct Version {
    pub major: u32,
    pub minor: u32,
    pub patch: Option<u32>,
}

/// What a string denotes as a version: its components between dots must be
/// two or three, and each must denote a number. The error is the message for
/// the first thing found wrong.
pub open spec fn parse_spec(s: Seq<char>) -> Result<Version, Seq<char>> {
    let parts = split_on(s, '.');
    if parts.len() < 2 || parts.len() > 3 {
        Err("Invalid version format"@)
    } else {
        match parse_u32_spec(parts[0]) {
            None => Err("Invalid major version"@),
            Some(major) => match parse_u32_spec(parts[1]) {
                None => Err("Invalid minor version"@),
                Some(minor) => if parts.len() == 3 {
                    match parse_u32_spec(parts[2]) {
                        None => Err("Invalid patch version"@),
                        Some(patch) => Ok(Version { major, minor, patch: Some(patch) }),
                    }
                } else {
                    Ok(Version { major, minor, patch: None })
                },
            },
        }
    }
}

impl Version {
    /// The order of versions: by major, then by minor, then by patch, where
    /// a version with a patch comes after the same version without one.
    pub open spec fn precedes(self, other: Version) -> bool {
        if self.major != other.major {
            self.major < other.major
        } else if self.minor != other.minor {
            self.minor < other.minor
        } else {
            match (self.patch, other.patch) {
                (Some(p), Some(q)) => p < q,
                (None, Some(_)) => true,
                (Some(_), None) => false,
                (None, None) => false,
            }
        }
    }

    /// The identifier written out: the components in decimal, with dots
    /// between them.
    pub open spec fn render(self) -> Seq<char> {
        let head = decimal(self.major as nat) + seq!['.'] + decimal(self.minor as nat);
        match self.patch {
            Some(p) => head + seq!['.'] + decimal(p as nat),
            None => head,
        }
    }

    /// Reads a version from `version`.
    ///
    /// A component is an optional `+` followed by one or more ASCII digits,
    /// with a value that fits in 32 bits. Every failure is a malformed
    /// identifier; the message names the first thing found wrong.
    pub fn from_str(version: &str) -> (r: Result<Version, String>)
        ensures
            parse_spec(version@) == match r {
                Ok(v) => Ok(v),
                Err(e) => Err(e@),
            },
    {
        let chars = chars_of(version);
        let parts = split_chars(&chars, '.');
        if parts.len() < 2 || parts.len() > 3 {
            return Err("Invalid version format".to_string());
        }
        let major = match parse_u32(&parts[0]) {
            Some(n) => n,
            None => {
                return Err("Invalid major version".to_string());
            },
        };
        let minor = match parse_u32(&parts[1]) {
            Some(n) => n,
            None => {
                return Err("Invalid minor version".to_string());
            },
        };
        let patch = if parts.len() == 3 {
            match parse_u32(&parts[2]) {
                Some(n) => Some(n),
                None => {
                    return Err("Invalid patch version".to_string());
                },
            }
        } else {
            None
        };
        Ok(Version { major, minor, patch })
    }

    /// Writes the identifier out.
    pub fn to_string(&self) -> (r: String)
        ensures
            r@ == self.render(),
    {
        let mut out = String::new();
        append_decimal(&mut out, self.major);
        out.append(".");
        append_decimal(&mut out, self.minor);
        match self.patch {
            Some(p) => {
                out.append(".");
                append_decimal(&mut out, p);
            },
            None => {},
        }
        proof {
            reveal_strlit(".");
        }
        out
    }
}

impl PartialOrd for Version {
    fn partial_cmp(&self, other: &Version) -> (r: Option<Ordering>) {
        if self.major != other.major {
            if self.major < other.major {
                Some(Ordering::Less)
            } else {
                Some(Ordering::Greater)
            }
        } else if self.minor != other.minor {
            if self.minor < other.minor {
                Some(Ordering::Less)
            } else {
                Some(Ordering::Greater)
            }
        } else {
            match (self.patch, other.patch) {
                (Some(p), Some(q)) => if p < q {
                    Some(Ordering::Less)
                } else if p > q {
                    Some(Ordering::Greater)
                } else {
                    Some(Ordering::Equal)
                },
                (Some(_), None) => Some(Ordering::Greater),
                (None, Some(_)) => Some(Ordering::Less),
                (None, None) => Some(Ordering::Equal),
            }
        }
    }
}

impl vstd::std_specs::cmp::PartialOrdSpecImpl for Version {
    open spec fn obeys_partial_cmp_spec() -> bool {
        true
    }

    open spec fn partial_cmp_spec(&self, other: &Version) -> Option<Ordering> {
        if self.precedes(*other) {
            Some(Ordering::Less)
        } else if other.precedes(*self) {
            Some(Ordering::Greater)
        } else {
            Some(Ordering::Equal)
        }
    }
}

/// No version precedes itself.
pub proof fn lemma_order_irreflexive(a: Version)
    ensures
        !a.precedes(a),
{
}

/// The order is transitive.
pub proof fn lemma_order_transitive(a: Version, b: Version, c: Version)
    requires
        a.precedes(b),
        b.precedes(c),
    ensures
        a.precedes(c),
{
}

/// Of two versions exactly one holds: the first precedes the second, the
/// second precedes the first, or they are the same version.
pub proof fn lemma_order_total(a: Version, b: Version)
    ensures
        a.precedes(b) || b.precedes(a) || a == b,
        !(a.precedes(b) && b.precedes(a)),
        a == b ==> !a.precedes(b) && !b.precedes(a),
{
}

/// Comparison with `<`, `>` and `==` goes by `precedes`.
pub proof fn lemma_comparison_agrees(a: Version, b: Version)
    ensures
        a.partial_cmp_spec(&b) == Some(Ordering::Less) <==> a.precedes(b),
        a.partial_cmp_spec(&b) == Some(Ordering::Greater) <==> b.precedes(a),
        a.partial_cmp_spec(&b) == Some(Ordering::Equal) <==> a == b,
{
}

/// A version written out and read back is the same version.
pub proof fn lemma_parse_render(v: Version)
    ensures
        parse_spec(v.render()) == Ok::<Version, Seq<char>>(v),
{
    let major = decimal(v.major as nat);
    let minor = decimal(v.minor as nat);
    lemma_decimal_value(v.major as nat);
    lemma_decimal_value(v.minor as nat);
    lemma_parse_decimal(v.major);
    lemma_parse_decimal(v.minor);
    lemma_digits_free_of_dot(major);
    lemma_digits_free_of_dot(minor);
    lemma_split_free(major, '.');
    lemma_split_append(major, '.', minor);
    let head = major + seq!['.'] + minor;
    assert(split_on(head, '.') =~= seq![major, minor]);
    match v.patch {
        Some(p) => {
            let patch = decimal(p as nat);
            lemma_decimal_value(p as nat);
            lemma_parse_decimal(p);
            lemma_digits_free_of_dot(patch);
            lemma_split_append(head, '.', patch);
            assert(split_on(v.render(), '.') =~= seq![major, minor, patch]);
        },
        None => {},
    }
}

/// A numeral holds no dot.
proof fn lemma_digits_free_of_dot(s: Seq<char>)
    requires
        crate::decimal::all_digits(s),
    ensures
        free_of(s, '.'),
{
    assert forall|i: int| 0 <= i < s.len() implies #[trigger] s[i] != '.' by {
        assert(crate::decimal::is_digit(s[i]));
    }
}

} // verus!
