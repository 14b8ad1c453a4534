use vstd::prelude::*;
use vstd::string::StrSliceExecFns;

verus! {

/// The code point of `c` with an ASCII upper-case letter folded to its
/// lower-case form; any other character is left as it is.
pub open spec fn lower_char(c: char) -> u32 {
    if 65 <= c as u32 <= 90 {
        (c as u32 + 32) as u32
    } else {
        c as u32
    }
}

/// Two character sequences are equal up to ASCII case.
pub open spec fn lower_eq(s: Seq<char>, t: Seq<char>) -> bool {
    s.len() == t.len() && forall|i: int| 0 <= i < s.len() ==> lower_char(s[i]) == lower_char(t[i])
}

/// A sequence names a difficulty when it matches one of the three level
/// names up to ASCII case.
pub open spec fn is_difficulty_name(s: Seq<char>) -> bool {
    lower_eq(s, "easy"@) || lower_eq(s, "medium"@) || lower_eq(s, "hard"@)
}

/// The level named by a sequence, meaningful when `is_difficulty_name` holds.
pub open spec fn difficulty_of(s: Seq<char>) -> Difficulty {
    if lower_eq(s, "easy"@) {
        Difficulty::Easy
    } else if lower_eq(s, "medium"@) {
        Difficulty::Medium
    } else {
        Difficulty::Hard
    }
}

fn lower_char_exec(c: char) -> (u: u32)
    ensures
        u == lower_char(c),
{
    let v = c as u32;
    if 65 <= v && v <= 90 {
        v + 32
    } else {
        v
    }
}

fn eq_ignore_case(a: &str, b: &str) -> (r: bool)
    ensures
        r == lower_eq(a@, b@),
{
    let alen = a.unicode_len();
    let blen = b.unicode_len();
    if alen != blen {
        return false;
    }
    let mut i: usize = 0;
    while i < alen
        invariant
            0 <= i <= alen,
            alen == a@.len(),
            blen == b@.len(),
            alen == blen,
            forall|j: int| 0 <= j < i ==> lower_char(a@[j]) == lower_char(b@[j]),
        decreases alen - i,
    {
        let ca = a.get_char(i);
        let cb = b.get_char(i);
        if lower_char_exec(ca) != lower_char_exec(cb) {
            return false;
        }
        i += 1;
    }
    true
}

/// The three difficulty levels a session can be played at. Each level maps to
/// a fixed branching factor: the number of candidate paths offered per turn.
#[derive(Clone, Copy, Debug, PartialEq, Eq, Structural)]
pub enum Difficulty {
    Easy,
    Medium,
    Hard,
}

impl Difficulty {
    /// Parses a difficulty name, ignoring ASCII case; any other input is
    /// rejected.
    pub fn from(arg: &str) -> (r: Result<Difficulty, &'static str>)
        ensures
            r is Ok <==> is_difficulty_name(arg@),
            r matches Ok(d) ==> d == difficulty_of(arg@),
            r matches Err(e) ==> e@ == "not a difficulty"@,
    {
        if eq_ignore_case(arg, "easy") {
            Ok(Difficulty::Easy)
        } else if eq_ignore_case(arg, "medium") {
            Ok(Difficulty::Medium)
        } else if eq_ignore_case(arg, "hard") {
            Ok(Difficulty::Hard)
        } else {
            Err("not a difficulty")
        }
    }

    /// Branching factor of this level: how many candidate operations are
    /// offered each turn.
    pub open spec fn branch_factor(self) -> usize {
        match self {
            Difficulty::Easy => 2,
            Difficulty::Medium => 3,
            Difficulty::Hard => 4,
        }
    }

    /// The branching factor as an executable value.
    pub fn to_usize(&self) -> (n: usize)
        ensures
            n == self.branch_factor(),
            2 <= n <= 4,
    {
        match self {
            Difficulty::Easy => 2,
            Difficulty::Medium => 3,
            Difficulty::Hard => 4,
        }
    }
}

/// The startup configuration of a session: the difficulty chosen on the
/// command line.
pub struct Config {
    pub difficulty: Difficulty,
}

/// Builds a session configuration from the command-line tokens: the program
/// name followed by exactly one difficulty name. Too few or too many tokens,
/// or an unrecognized name, are rejected.
pub fn config(args: &[String]) -> (r: Result<Config, &'static str>)
    ensures
        r is Ok <==> (args@.len() == 2 && is_difficulty_name(args@[1]@)),
        r matches Ok(c) ==> c.difficulty == difficulty_of(args@[1]@),
        args@.len() < 2 ==> (r matches Err(e) && e@ == "not enough arguments"@),
        args@.len() > 2 ==> (r matches Err(e) && e@ == "too much arguments"@),
{
    if args.len() < 2 {
        return Err("not enough arguments");
    }
    if args.len() > 2 {
        return Err("too much arguments");
    }
    let difficulty = match Difficulty::from(args[1].as_str()) {
        Ok(d) => d,
        Err(e) => {
            return Err(e);
        },
    };
    Ok(Config { difficulty })
}

} // verus!
