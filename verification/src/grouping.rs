//! Separator grouping of digit strings and trimming of trailing filler.
//!
//! The integer portion is grouped into triples counted from its right end;
//! the fractional portion is grouped into triples counted from its left end
//! and then stripped of trailing zero digits and separators.

use vstd::prelude::*;

verus! {

/// Groups `s` into triples counted from the right end, with `sep` between
/// adjacent triples. The leftmost group holds one to three characters; no
/// separator ever stands first or last.
pub open spec fn spec_group_right(s: Seq<char>, sep: char) -> Seq<char>
    decreases s.len(),
{
    if s.len() <= 3 {
        s
    } else {
        spec_group_right(s.take(s.len() - 3), sep) + seq![sep] + s.skip(s.len() - 3)
    }
}

/// Groups `s` into triples counted from the left end, with `sep` between
/// adjacent triples. The rightmost group holds one to three characters.
pub open spec fn spec_group_left(s: Seq<char>, sep: char) -> Seq<char>
    decreases s.len(),
{
    if s.len() <= 3 {
        s
    } else {
        s.take(3) + seq![sep] + spec_group_left(s.skip(3), sep)
    }
}

/// Repeatedly drops a trailing `'0'` or a trailing `sep`, but never the last
/// remaining character.
pub open spec fn spec_trim_filler(s: Seq<char>, sep: char) -> Seq<char>
    decreases s.len(),
{
    if s.len() > 1 && (s.last() == '0' || s.last() == sep) {
        spec_trim_filler(s.drop_last(), sep)
    } else {
        s
    }
}

/// Grouping from the right keeps the first character first: the output never
/// opens with a separator.
pub proof fn lemma_group_right_first(s: Seq<char>, sep: char)
    requires
        s.len() >= 1,
    ensures
        spec_group_right(s, sep).len() >= 1,
        spec_group_right(s, sep).first() == s.first(),
    decreases s.len(),
{
    if s.len() > 3 {
        lemma_group_right_first(s.take(s.len() - 3), sep);
        assert(s.take(s.len() - 3).first() == s.first());
    }
}

/// The character that stands `j` places from the right end of `s`.
pub open spec fn char_from_right(s: Seq<char>, j: int) -> char {
    s[s.len() - 1 - j]
}

/// Grouping correctness: grouping a string of `d >= 1` characters from the
/// right inserts exactly `(d - 1) / 3` separators. Counting positions from the
/// right end of the result, every position `j` with `j % 4 == 3` holds the
/// separator, and every other position `j` holds the input character that
/// stands `j - j / 4` places from the input's right end: the separators are
/// exactly three characters apart, counted from the right.
pub proof fn lemma_group_right_positions(s: Seq<char>, sep: char)
    requires
        s.len() >= 1,
    ensures
        spec_group_right(s, sep).len() == s.len() + (s.len() - 1) / 3,
        forall|j: int|
            0 <= j < spec_group_right(s, sep).len() ==> #[trigger] char_from_right(
                spec_group_right(s, sep),
                j,
            ) == (if j % 4 == 3 {
                sep
            } else {
                char_from_right(s, j - j / 4)
            }),
    decreases s.len(),
{
    let r = spec_group_right(s, sep);
    let d = s.len() as int;
    if d <= 3 {
        assert(r == s);
        assert forall|j: int| 0 <= j < r.len() implies #[trigger] char_from_right(r, j) == (if j % 4
            == 3 {
            sep
        } else {
            char_from_right(s, j - j / 4)
        }) by {
            assert(j < 3);
            assert(j % 4 == j);
            assert(j / 4 == 0);
        }
    } else {
        let head = s.take(d - 3);
        lemma_group_right_positions(head, sep);
        let rh = spec_group_right(head, sep);
        assert(r == rh + seq![sep] + s.skip(d - 3));
        assert(rh.len() == (d - 3) + (d - 4) / 3);
        assert((d - 1) / 3 == (d - 4) / 3 + 1);
        assert(r.len() == d + (d - 1) / 3);
        assert forall|j: int| 0 <= j < r.len() implies #[trigger] char_from_right(r, j) == (if j % 4
            == 3 {
            sep
        } else {
            char_from_right(s, j - j / 4)
        }) by {
            if j < 3 {
                assert(r[r.len() - 1 - j] == s.skip(d - 3)[3 - 1 - j]);
                assert(s.skip(d - 3)[3 - 1 - j] == s[d - 1 - j]);
                assert(j % 4 == j);
                assert(j / 4 == 0);
            } else if j == 3 {
                assert(r[r.len() - 1 - j] == sep);
            } else {
                let jj = j - 4;
                assert(char_from_right(rh, jj) == (if jj % 4 == 3 {
                    sep
                } else {
                    char_from_right(head, jj - jj / 4)
                }));
                assert(r.len() - 1 - j == rh.len() - 1 - jj);
                assert(r[rh.len() - 1 - jj] == rh[rh.len() - 1 - jj]);
                if jj % 4 == 3 {
                    assert(j % 4 == 3);
                } else {
                    assert(j % 4 != 3);
                    assert(j / 4 == jj / 4 + 1);
                    assert(head.len() - 1 - (jj - jj / 4) == s.len() - 1 - (j - j / 4));
                    assert(jj - jj / 4 < head.len());
                    assert(head[s.len() - 1 - (j - j / 4)] == s[s.len() - 1 - (j - j / 4)]);
                }
            }
        }
    }
}

/// Trimming leaves no trailing filler: when more than one character remains,
/// the last one is neither `'0'` nor the separator.
pub proof fn lemma_trim_filler_last(s: Seq<char>, sep: char)
    ensures
        spec_trim_filler(s, sep).len() > 1 ==> spec_trim_filler(s, sep).last() != '0'
            && spec_trim_filler(s, sep).last() != sep,
    decreases s.len(),
{
    if s.len() > 1 && (s.last() == '0' || s.last() == sep) {
        lemma_trim_filler_last(s.drop_last(), sep);
    }
}

/// Copies the first `k` characters of `v`.
pub fn take_prefix(v: &Vec<char>, k: usize) -> (r: Vec<char>)
    requires
        k <= v.len(),
    ensures
        r@ == v@.take(k as int),
{
    let mut r: Vec<char> = Vec::new();
    let mut i: usize = 0;
    while i < k
        invariant
            i <= k <= v.len(),
            r@ == v@.take(i as int),
        decreases k - i,
    {
        r.push(v[i]);
        i += 1;
        proof {
            assert(r@ =~= v@.take(i as int));
        }
    }
    r
}

fn group_right_upto(digits: &Vec<char>, len: usize, sep: char) -> (r: Vec<char>)
    requires
        len <= digits.len(),
    ensures
        r@ == spec_group_right(digits@.take(len as int), sep),
    decreases len,
{
    if len <= 3 {
        take_prefix(digits, len)
    } else {
        let mut r = group_right_upto(digits, len - 3, sep);
        r.push(sep);
        r.push(digits[len - 3]);
        r.push(digits[len - 2]);
        r.push(digits[len - 1]);
        proof {
            let s = digits@.take(len as int);
            assert(s.take(s.len() - 3) =~= digits@.take(len - 3));
            assert(r@ =~= spec_group_right(s.take(s.len() - 3), sep) + seq![sep] + s.skip(
                s.len() - 3,
            ));
        }
        r
    }
}

/// Inserts `sep` into `digits` every three characters, counted from the right.
pub fn group_right(digits: &Vec<char>, sep: char) -> (r: Vec<char>)
    ensures
        r@ == spec_group_right(digits@, sep),
{
    let r = group_right_upto(digits, digits.len(), sep);
    proof {
        assert(digits@.take(digits@.len() as int) =~= digits@);
    }
    r
}

fn group_left_from(digits: &Vec<char>, from: usize, sep: char) -> (r: Vec<char>)
    requires
        from <= digits.len(),
    ensures
        r@ == spec_group_left(digits@.skip(from as int), sep),
    decreases digits.len() - from,
{
    let remaining: usize = digits.len() - from;
    if remaining <= 3 {
        let mut r: Vec<char> = Vec::new();
        let mut i: usize = from;
        while i < digits.len()
            invariant
                from <= i <= digits.len(),
                r@ == digits@.subrange(from as int, i as int),
            decreases digits.len() - i,
        {
            r.push(digits[i]);
            i += 1;
            proof {
                assert(r@ =~= digits@.subrange(from as int, i as int));
            }
        }
        proof {
            assert(digits@.subrange(from as int, digits@.len() as int) =~= digits@.skip(
                from as int,
            ));
        }
        r
    } else {
        let mut r: Vec<char> = Vec::new();
        r.push(digits[from]);
        r.push(digits[from + 1]);
        r.push(digits[from + 2]);
        r.push(sep);
        let mut tail = group_left_from(digits, from + 3, sep);
        r.append(&mut tail);
        proof {
            let s = digits@.skip(from as int);
            assert(s.skip(3) =~= digits@.skip(from + 3));
            assert(r@ =~= s.take(3) + seq![sep] + spec_group_left(s.skip(3), sep));
        }
        r
    }
}

/// Inserts `sep` into `digits` every three characters, counted from the left.
pub fn group_left(digits: &Vec<char>, sep: char) -> (r: Vec<char>)
    ensures
        r@ == spec_group_left(digits@, sep),
{
    let r = group_left_from(digits, 0, sep);
    proof {
        assert(digits@.skip(0) =~= digits@);
    }
    r
}

/// Drops trailing `'0'` and `sep` characters, keeping at least one character
/// of a non-empty input.
pub fn trim_filler(v: Vec<char>, sep: char) -> (r: Vec<char>)
    ensures
        r@ == spec_trim_filler(v@, sep),
{
    let mut r = v;
    while r.len() > 1 && (r[r.len() - 1] == '0' || r[r.len() - 1] == sep)
        invariant
            spec_trim_filler(r@, sep) == spec_trim_filler(v@, sep),
        decreases r.len(),
    {
        proof {
            assert(r@.drop_last() == r@.subrange(0, r@.len() - 1));
        }
        r.pop();
    }
    r
}

} // verus!
