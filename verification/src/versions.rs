//! Comparison of dotted version strings.
//!
//! The comparison itself is the work of the `version_compare` crate. This
//! module decides which strings may be handed to it, and names its answer.

use crate::text::{chars_of, digits_value};
use version_compare::{CompOp, Version};
use vstd::prelude::*;

verus! {

/// How one version stands to another.
#[derive(Clone, Copy, Debug, PartialEq, Eq, Structural)]
pub enum VersionOrder {
    Less,
    Equal,
    Greater,
}

/// What `char::is_alphanumeric` answers for `c`.
pub uninterp spec fn char_is_alphanumeric(c: char) -> bool;

/// What `char::is_alphabetic` answers for `c`.
pub uninterp spec fn char_is_alphabetic(c: char) -> bool;

/// What `version_compare` answers when `left` and `right` are parsed with
/// `Version::from` and the first is compared to the second: nothing where
/// one of them does not parse.
pub uninterp spec fn version_order(left: Seq<char>, right: Seq<char>) -> Option<VersionOrder>;

/// Calls `char::is_alphanumeric`, a function of the character alone. The
/// contract gives its answer a name and claims nothing else.
#[verifier::external_body]
fn is_alphanumeric(c: char) -> (yes: bool)
    ensures
        yes == char_is_alphanumeric(c),
{
    c.is_alphanumeric()
}

/// Calls `char::is_alphabetic`, a function of the character alone. The
/// contract gives its answer a name and claims nothing else.
#[verifier::external_body]
fn is_alphabetic(c: char) -> (yes: bool)
    ensures
        yes == char_is_alphabetic(c),
{
    c.is_alphabetic()
}

/// Calls `version_compare::Version::from` on both strings and
/// `Version::compare` on the results.
///
/// The contract names the answer: `None` where a string does not parse,
/// else which of `Lt`, `Eq`, `Gt` the comparison gave. `Version::from`
/// splits a string at the characters that are not alphanumeric, and unwraps
/// the 32-bit value of a run of digits that starts such a part and is
/// followed by a letter: `requires` leaves out the strings where that value
/// does not fit.
#[verifier::external_body]
fn compare_versions(left: &str, right: &str) -> (order: Option<VersionOrder>)
    requires
        version_is_plain(left@),
        version_is_plain(right@),
    ensures
        order == version_order(left@, right@),
{
    match (Version::from(left), Version::from(right)) {
        (Some(l), Some(r)) => match l.compare(&r) {
            CompOp::Lt => Some(VersionOrder::Less),
            CompOp::Eq => Some(VersionOrder::Equal),
            CompOp::Gt => Some(VersionOrder::Greater),
            _ => None,
        },
        _ => None,
    }
}

/// An ASCII digit.
pub open spec fn is_digit(c: char) -> bool {
    '0' <= c <= '9'
}

/// A character that ends one part of a version and begins the next.
pub open spec fn separates(c: char) -> bool {
    !is_digit(c) && !char_is_alphanumeric(c)
}

/// A part of a version begins at `i`.
pub open spec fn part_starts(s: Seq<char>, i: int) -> bool {
    i == 0 || (0 < i <= s.len() && separates(s[i - 1]))
}

/// Every character of `s` from `i` up to `j` is a digit.
pub open spec fn all_digits(s: Seq<char>, i: int, j: int) -> bool {
    forall|t: int| i <= t < j ==> is_digit(#[trigger] s[t])
}

/// The digits from `i` up to `j` begin a part of `s`, a letter follows
/// them, and their value is beyond 32 signed bits.
pub open spec fn oversized_number_at(s: Seq<char>, i: int, j: int) -> bool {
    &&& 0 <= i < j < s.len()
    &&& part_starts(s, i)
    &&& all_digits(s, i, j)
    &&& !is_digit(s[j])
    &&& char_is_alphabetic(s[j])
    &&& digits_value(s.subrange(i, j)) > i32::MAX
}

/// No part of `s` begins with a number beyond 32 signed bits that a letter
/// follows.
pub open spec fn version_is_plain(s: Seq<char>) -> bool {
    forall|i: int, j: int| !oversized_number_at(s, i, j)
}

/// What the comparison of `left` to `right` gives: nothing where a string
/// is not plain or does not parse.
pub open spec fn checked_order(left: Seq<char>, right: Seq<char>) -> Option<VersionOrder> {
    if version_is_plain(left) && version_is_plain(right) {
        version_order(left, right)
    } else {
        None
    }
}

proof fn lemma_value_step(s: Seq<char>, i: int, j: int)
    requires
        0 <= i <= j < s.len(),
    ensures
        digits_value(s.subrange(i, j + 1)) == digits_value(s.subrange(i, j)) * 10 + (s[j] as nat
            - '0' as nat) as nat,
{
    let longer = s.subrange(i, j + 1);
    assert(longer.drop_last() =~= s.subrange(i, j));
    assert(longer.last() == s[j]);
}

fn digit_of(c: char) -> (d: u64)
    requires
        is_digit(c),
    ensures
        d == (c as nat - '0' as nat),
        d <= 9,
{
    (c as u32 - '0' as u32) as u64
}

/// Whether `version` may be handed to the comparison.
pub fn is_plain_version(version: &str) -> (plain: bool)
    ensures
        plain == version_is_plain(version@),
{
    let chars = chars_of(version);
    let ghost s = version@;
    let n = chars.len();
    let mut pos: usize = 0;
    // Where the digits that begin the current part started, while the
    // scan is still inside them.
    let mut run: Option<usize> = None;
    let mut value: u64 = 0;
    let mut big = false;
    let mut at_start = true;
    while pos < n
        invariant
            pos <= n,
            s == version@,
            n == s.len(),
            chars@ == s,
            at_start == part_starts(s, pos as int),
            forall|i: int, j: int| j < pos ==> !oversized_number_at(s, i, j),
            match run {
                Some(start) => {
                    &&& start < pos
                    &&& part_starts(s, start as int)
                    &&& all_digits(s, start as int, pos as int)
                    &&& big == (digits_value(s.subrange(start as int, pos as int)) > i32::MAX)
                    &&& !big ==> value == digits_value(s.subrange(start as int, pos as int))
                },
                None => forall|i: int|
                    0 <= i < pos ==> !(part_starts(s, i) && all_digits(s, i, pos as int)),
            },
        decreases n - pos,
    {
        let c = chars[pos];
        let digit = '0' <= c && c <= '9';
        let ghost before = run;
        if digit {
            match run {
                Some(start) => {
                    proof {
                        lemma_value_step(s, start as int, pos as int);
                    }
                    if !big {
                        value = value * 10 + digit_of(c);
                        big = value > 2147483647;
                    }
                },
                None => {
                    if at_start {
                        run = Some(pos);
                        proof {
                            lemma_value_step(s, pos as int, pos as int);
                            assert(s.subrange(pos as int, pos as int) =~= Seq::<char>::empty());
                        }
                        value = digit_of(c);
                        big = false;
                    }
                },
            }
            at_start = false;
            proof {
                assert(!separates(c));
                match run {
                    Some(start) => {
                        assert(all_digits(s, start as int, pos + 1));
                    },
                    None => {
                        assert forall|i: int| 0 <= i < pos + 1 implies !(part_starts(s, i)
                            && all_digits(s, i, pos + 1)) by {
                            if i < pos && part_starts(s, i) && all_digits(s, i, pos + 1) {
                                assert(all_digits(s, i, pos as int));
                            }
                        }
                    },
                }
                assert forall|i: int, j: int| j < pos + 1 implies !oversized_number_at(s, i, j) by {
                    if j == pos {
                        assert(is_digit(s[j]));
                    }
                }
            }
        } else {
            let letter = is_alphabetic(c);
            match run {
                Some(start) => {
                    if big && letter {
                        assert(oversized_number_at(s, start as int, pos as int));
                        return false;
                    }
                    proof {
                        assert forall|i: int| !oversized_number_at(s, i, pos as int) by {
                            if oversized_number_at(s, i, pos as int) {
                                if i < start {
                                    assert(is_digit(s[start - 1]));
                                } else if i > start {
                                    assert(is_digit(s[i - 1]));
                                }
                            }
                        }
                    }
                },
                None => {
                    proof {
                        assert forall|i: int| !oversized_number_at(s, i, pos as int) by {}
                    }
                },
            }
            run = None;
            at_start = !is_alphanumeric(c);
            proof {
                assert forall|i: int| 0 <= i < pos + 1 implies !(part_starts(s, i) && all_digits(
                    s,
                    i,
                    pos + 1,
                )) by {
                    if all_digits(s, i, pos + 1) {
                        assert(is_digit(s[pos as int]));
                    }
                }
            }
        }
        pos = pos + 1;
    }
    true
}

/// Compares the version `left` to the version `right`.
pub fn version_compare(left: &str, right: &str) -> (order: Option<VersionOrder>)
    ensures
        order == checked_order(left@, right@),
{
    if is_plain_version(left) && is_plain_version(right) {
        compare_versions(left, right)
    } else {
        None
    }
}

} // verus!
