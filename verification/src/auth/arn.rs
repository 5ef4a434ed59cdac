//! Reading the region out of a colon-delimited resource name.

use vstd::prelude::*;
use vstd::std_specs::iter::IteratorSpec;

verus! {

/// Index in a resource name of the field that holds the region.
pub const REGION_FIELD: usize = 3;

/// Length of the leading run of `s` that holds no `sep`.
pub open spec fn field_len(s: Seq<char>, sep: char) -> int
    decreases s.len(),
{
    if s.len() == 0 || s[0] == sep {
        0
    } else {
        1 + field_len(s.drop_first(), sep)
    }
}

/// The `n`-th field (counted from zero) of `s` split at every `sep`, if
/// `s` has that many fields. A text without `sep` is one field; an empty
/// field between two separators counts.
pub open spec fn nth_field(s: Seq<char>, sep: char, n: nat) -> Option<Seq<char>>
    decreases n,
{
    let len = field_len(s, sep);
    if n == 0 {
        Some(s.take(len))
    } else if len >= s.len() {
        None
    } else {
        nth_field(s.skip(len + 1), sep, (n - 1) as nat)
    }
}

/// The region named by a resource name: its fourth colon-separated field.
pub open spec fn arn_region(arn: Seq<char>) -> Option<Seq<char>> {
    nth_field(arn, ':', REGION_FIELD as nat)
}

/// A run of `k` non-separators that ends the text or is followed by a
/// separator is exactly the first field.
pub proof fn lemma_field_len(s: Seq<char>, sep: char, k: int)
    requires
        0 <= k <= s.len(),
        forall|j: int| 0 <= j < k ==> s[j] != sep,
        k == s.len() || s[k] == sep,
    ensures
        field_len(s, sep) == k,
    decreases k,
{
    if k > 0 {
        let t = s.drop_first();
        assert forall|j: int| 0 <= j < k - 1 implies t[j] != sep by {
            assert(t[j] == s[j + 1]);
        }
        lemma_field_len(t, sep, k - 1);
    }
}

/// How many times `sep` occurs in `s`.
pub open spec fn separators(s: Seq<char>, sep: char) -> nat
    decreases s.len(),
{
    if s.len() == 0 {
        0
    } else {
        let head: nat = if s[0] == sep {
            1
        } else {
            0
        };
        head + separators(s.drop_first(), sep)
    }
}

/// The first field holds no separator and ends where the text ends or
/// the first separator stands; what follows that separator holds one
/// separator less than the text.
pub proof fn lemma_first_field(s: Seq<char>, sep: char)
    ensures
        0 <= field_len(s, sep) <= s.len(),
        forall|j: int| 0 <= j < field_len(s, sep) ==> s[j] != sep,
        field_len(s, sep) < s.len() ==> s[field_len(s, sep)] == sep,
        field_len(s, sep) == s.len() ==> separators(s, sep) == 0,
        field_len(s, sep) < s.len() ==> separators(s, sep) == 1 + separators(
            s.skip(field_len(s, sep) + 1),
            sep,
        ),
    decreases s.len(),
{
    if s.len() == 0 {
    } else if s[0] == sep {
        assert(s.skip(1) =~= s.drop_first());
    } else {
        let rest = s.drop_first();
        lemma_first_field(rest, sep);
        let len = field_len(rest, sep);
        assert forall|j: int| 0 <= j < len + 1 implies s[j] != sep by {
            if j > 0 {
                assert(s[j] == rest[j - 1]);
            }
        }
        if len < rest.len() {
            assert(s[len + 1] == rest[len]);
            assert(s.skip(len + 2) =~= rest.skip(len + 1));
        }
    }
}

/// A text has an `n`-th field exactly where it holds at least `n`
/// separators, and no field holds a separator. So a resource name with
/// fewer than three colons has no region, and any other has one, which
/// may be empty.
pub proof fn field_exists_iff_enough_separators(s: Seq<char>, sep: char, n: nat)
    ensures
        nth_field(s, sep, n) is Some <==> separators(s, sep) >= n,
        nth_field(s, sep, n) matches Some(field) ==> forall|j: int|
            0 <= j < field.len() ==> field[j] != sep,
    decreases n,
{
    lemma_first_field(s, sep);
    let len = field_len(s, sep);
    if n == 0 {
    } else if len < s.len() {
        field_exists_iff_enough_separators(s.skip(len + 1), sep, (n - 1) as nat);
    }
}

/// A resource name names a region exactly where it holds at least three
/// colons.
pub proof fn region_needs_four_fields(arn: Seq<char>)
    ensures
        arn_region(arn) is Some <==> separators(arn, ':') >= 3,
{
    field_exists_iff_enough_separators(arn, ':', REGION_FIELD as nat);
}

/// Returns the `n`-th field of `text` split at every `sep`, or `None`
/// where `text` has `n` fields or fewer.
pub fn field_at(text: &str, sep: char, n: usize) -> (field: Option<String>)
    ensures
        field.deep_view() == nth_field(text@, sep, n as nat),
{
    let total = text.unicode_len();
    let mut chars = text.chars();
    let mut i: usize = 0;
    let mut start: usize = 0;
    let mut left: usize = n;
    let mut end: Option<usize> = None;
    assert(text@.skip(0) =~= text@);
    while end.is_none()
        invariant
            total == text@.len(),
            i <= total,
            start <= i,
            left <= n,
            chars.obeys_prophetic_iter_laws(),
            end is None ==> chars.remaining() == text@.skip(i as int),
            forall|j: int| start <= j < i ==> text@[j] != sep,
            nth_field(text@, sep, n as nat) == nth_field(text@.skip(start as int), sep, left as nat),
            end matches Some(e) ==> e == i && left == 0 && (i == total || text@[i as int] == sep),
        decreases (if end is None { 1int } else { 0int }), total - i,
    {
        let ghost before = chars;
        let next = chars.next();
        proof {
            vstd::string::next_postcondition(&before, &chars, next);
        }
        match next {
            None => {
                end = Some(i);
                if left > 0 {
                    proof {
                        let rest = text@.skip(start as int);
                        assert forall|j: int| 0 <= j < i - start implies rest[j] != sep by {
                            assert(rest[j] == text@[start + j]);
                        }
                        lemma_field_len(rest, sep, i - start);
                    }
                    return None;
                }
            },
            Some(c) => {
                assert(c == text@.skip(i as int)[0]);
                assert(chars.remaining() == text@.skip(i as int + 1)) by {
                    assert(text@.skip(i as int).drop_first() =~= text@.skip(i as int + 1));
                }
                if c == sep {
                    if left == 0 {
                        end = Some(i);
                    } else {
                        proof {
                            let rest = text@.skip(start as int);
                            assert forall|j: int| 0 <= j < i - start implies rest[j] != sep by {
                                assert(rest[j] == text@[start + j]);
                            }
                            assert(rest[i - start] == text@[i as int]);
                            lemma_field_len(rest, sep, i - start);
                            assert(rest.skip(i - start + 1) =~= text@.skip(i as int + 1));
                        }
                        left = left - 1;
                        i = i + 1;
                        start = i;
                    }
                } else {
                    i = i + 1;
                }
            },
        }
    }
    proof {
        let rest = text@.skip(start as int);
        assert forall|j: int| 0 <= j < i - start implies rest[j] != sep by {
            assert(rest[j] == text@[start + j]);
        }
        if i < total {
            assert(rest[i - start] == text@[i as int]);
        }
        lemma_field_len(rest, sep, i - start);
        assert(rest.take(i - start) =~= text@.subrange(start as int, i as int));
    }
    Some(text.substring_char(start, i).to_owned())
}

/// Returns the region of a resource name, or `None` where the name has
/// fewer than four colon-separated fields.
pub fn region_of_arn(arn: &str) -> (region: Option<String>)
    ensures
        region.deep_view() == arn_region(arn@),
{
    field_at(arn, ':', REGION_FIELD)
}

} // verus!
