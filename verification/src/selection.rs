use vstd::prelude::*;
use vstd::arithmetic::div_mod::lemma_fundamental_div_mod;
use vstd::arithmetic::div_mod::lemma_mod_bound;
use vstd::string::StrSliceExecFns;

verus! {

/// Why a selection token was rejected: it does not spell a decimal number at
/// all, or it names a path outside the offered range.
#[derive(Clone, Copy, Debug, PartialEq, Eq, Structural)]
pub enum SelectionError {
    NotANumber,
    OutOfRange,
}

/// ASCII whitespace as it appears at the end of a line read from input.
pub open spec fn is_space(c: char) -> bool {
    c == ' ' || c == '\t' || c == '\n' || c == '\r'
}

/// The sequence with its trailing whitespace removed.
pub open spec fn trim_trailing(s: Seq<char>) -> Seq<char>
    decreases s.len(),
{
    if s.len() > 0 && is_space(s[s.len() - 1]) {
        trim_trailing(s.drop_last())
    } else {
        s
    }
}

/// An ASCII decimal digit.
pub open spec fn is_digit(c: char) -> bool {
    48 <= c as u32 <= 57
}

pub open spec fn all_digits(s: Seq<char>) -> bool {
    forall|i: int| 0 <= i < s.len() ==> is_digit(#[trigger] s[i])
}

/// The number a sequence of decimal digits spells, most significant first.
pub open spec fn digits_value(s: Seq<char>) -> int
    decreases s.len(),
{
    if s.len() == 0 {
        0
    } else {
        digits_value(s.drop_last()) * 10 + (s[s.len() - 1] as u32 - 48)
    }
}

/// What a selection token means on a turn offering `n_paths` candidate
/// paths. The token is trimmed of trailing whitespace and must spell a
/// decimal number small enough for a machine word; the number must name one
/// of the paths by its 1-based label; the meaning is the chosen zero-based
/// index.
pub open spec fn selection_of(s: Seq<char>, n_paths: int) -> Result<int, SelectionError> {
    let t = trim_trailing(s);
    if t.len() == 0 || !all_digits(t) || digits_value(t) > usize::MAX as int {
        Err(SelectionError::NotANumber)
    } else if digits_value(t) == 0 || digits_value(t) > n_paths {
        Err(SelectionError::OutOfRange)
    } else {
        Ok(digits_value(t) - 1)
    }
}

proof fn lemma_digits_value_nonneg(s: Seq<char>)
    requires
        all_digits(s),
    ensures
        digits_value(s) >= 0,
    decreases s.len(),
{
    if s.len() > 0 {
        assert(all_digits(s.drop_last()));
        lemma_digits_value_nonneg(s.drop_last());
    }
}

/// Appending digits never shrinks the number a digit string spells.
proof fn lemma_digits_value_prefix_le(s: Seq<char>, k: int)
    requires
        all_digits(s),
        0 <= k <= s.len(),
    ensures
        digits_value(s.subrange(0, k)) <= digits_value(s),
    decreases s.len() - k,
{
    if k == s.len() {
        assert(s.subrange(0, k) =~= s);
    } else {
        let shorter = s.subrange(0, k);
        let longer = s.subrange(0, k + 1);
        assert(longer.drop_last() =~= shorter);
        assert(all_digits(shorter));
        lemma_digits_value_nonneg(shorter);
        assert(digits_value(longer) == digits_value(shorter) * 10 + (longer[k] as u32 - 48));
        assert(digits_value(shorter) * 10 >= digits_value(shorter)) by (nonlinear_arith)
            requires
                digits_value(shorter) >= 0,
        ;
        lemma_digits_value_prefix_le(s, k + 1);
    }
}

fn is_space_char(c: char) -> (b: bool)
    ensures
        b == is_space(c),
{
    c == ' ' || c == '\t' || c == '\n' || c == '\r'
}

/// Parses the player's selection token against `n_paths` offered paths,
/// returning the chosen zero-based index. A token that does not spell a
/// decimal number is rejected as NotANumber; a number that names no offered
/// path, zero included, is rejected as OutOfRange.
pub fn parse_selection(input: &str, n_paths: usize) -> (r: Result<usize, SelectionError>)
    ensures
        r matches Ok(i) ==> selection_of(input@, n_paths as int) == Ok::<int, SelectionError>(
            i as int,
        ),
        r matches Err(e) ==> selection_of(input@, n_paths as int) == Err::<int, SelectionError>(e),
{
    let len = input.unicode_len();
    let mut end = len;
    proof {
        assert(input@.subrange(0, len as int) =~= input@);
    }
    while end > 0 && is_space_char(input.get_char(end - 1))
        invariant
            0 <= end <= len,
            len == input@.len(),
            trim_trailing(input@) == trim_trailing(input@.subrange(0, end as int)),
        decreases end,
    {
        proof {
            let s = input@.subrange(0, end as int);
            assert(s.drop_last() =~= input@.subrange(0, end as int - 1));
        }
        end = end - 1;
    }
    let ghost t = trim_trailing(input@);
    if end == 0 {
        proof {
            assert(input@.subrange(0, 0) =~= Seq::<char>::empty());
        }
        return Err(SelectionError::NotANumber);
    }
    proof {
        assert(t =~= input@.subrange(0, end as int));
    }
    let mut val: usize = 0;
    let mut i: usize = 0;
    while i < end
        invariant
            0 <= i <= end <= len,
            len == input@.len(),
            t == trim_trailing(input@),
            t == input@.subrange(0, end as int),
            all_digits(t.subrange(0, i as int)),
            val == digits_value(t.subrange(0, i as int)),
        decreases end - i,
    {
        let c = input.get_char(i);
        let u = c as u32;
        if u < 48 || u > 57 {
            proof {
                assert(t[i as int] == input@[i as int]);
                assert(!is_digit(t[i as int]));
            }
            return Err(SelectionError::NotANumber);
        }
        let d = (u - 48) as usize;
        let limit = (usize::MAX - d) / 10;
        proof {
            let md = (usize::MAX - d) as int;
            lemma_fundamental_div_mod(md, 10);
            lemma_mod_bound(md, 10);
            assert(t.subrange(0, i as int + 1).drop_last() =~= t.subrange(0, i as int));
            assert(t.subrange(0, i as int + 1)[i as int] == input@[i as int]);
        }
        if val > limit {
            proof {
                let md = (usize::MAX - d) as int;
                let q = md / 10;
                assert(val as int * 10 + d as int > usize::MAX as int) by (nonlinear_arith)
                    requires
                        val as int >= q + 1,
                        md == 10 * q + md % 10,
                        0 <= md % 10 < 10,
                        md == usize::MAX as int - d as int,
                ;
                assert(digits_value(t.subrange(0, i as int + 1)) == val as int * 10 + d as int);
                if all_digits(t) {
                    lemma_digits_value_prefix_le(t, i as int + 1);
                }
            }
            return Err(SelectionError::NotANumber);
        }
        proof {
            let md = (usize::MAX - d) as int;
            let q = md / 10;
            assert(val as int * 10 + d as int <= usize::MAX as int) by (nonlinear_arith)
                requires
                    val as int <= q,
                    md == 10 * q + md % 10,
                    0 <= md % 10 < 10,
                    md == usize::MAX as int - d as int,
            ;
        }
        val = val * 10 + d;
        i = i + 1;
    }
    proof {
        assert(t.subrange(0, end as int) =~= t);
    }
    if val == 0 || val > n_paths {
        return Err(SelectionError::OutOfRange);
    }
    Ok(val - 1)
}

} // verus!
