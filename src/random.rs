//! Random strings whose characters are drawn from those that a regular
//! expression accepts.
use vstd::prelude::*;
use vstd::string::StringExecFns;

verus! {

/// Whether the regular expression `pattern` compiles.
pub uninterp spec fn regex_compiles(pattern: Seq<char>) -> bool;

/// Whether the regular expression `pattern` matches somewhere in `text`.
pub uninterp spec fn regex_matches(pattern: Seq<char>, text: Seq<char>) -> bool;

/// Relies on `regex::Regex::new`, which compiles a pattern or fails, and on
/// `Regex::is_match`, which tells whether the compiled pattern matches
/// somewhere in a text; each candidate is tested as a text of one character.
#[verifier::external_body]
fn match_each(pattern: &str, candidates: &Vec<char>) -> (r: Option<Vec<bool>>)
    ensures
        r is Some <==> regex_compiles(pattern@),
        r is Some ==> r->Some_0.len() == candidates.len() && forall|i: int|
            0 <= i < candidates.len() ==> r->Some_0[i] == regex_matches(
                pattern@,
                seq![#[trigger] candidates[i]],
            ),
{
    regex::Regex::new(pattern).ok().map(
        |re| candidates.iter().map(|c| re.is_match(&c.to_string())).collect(),
    )
}

/// Relies on `rand::Rng::gen_range` over `rand::thread_rng()`: a number drawn
/// uniformly from `0..n`; an empty range, on which it panics, is excluded.
#[verifier::external_body]
fn draw_below(n: usize) -> (r: usize)
    requires
        n > 0,
    ensures
        r < n,
{
    rand::Rng::gen_range(&mut rand::thread_rng(), 0..n)
}

/// The largest character code that is ever drawn.
pub const LAST_CODE: u8 = 128;

/// A character that may appear in a string made for `pattern`: a code up to
/// [`LAST_CODE`] that the pattern matches on its own.
pub open spec fn accepts(pattern: Seq<char>, c: char) -> bool {
    0 <= c as int <= LAST_CODE && regex_matches(pattern, seq![c])
}

/// A generator of random strings over the characters that a regular
/// expression accepts.
#[derive(PartialEq, Eq, Debug, Clone)]
pub struct Random {
    /// The regular expression that each character must match.
    charset: String,
}

impl Random {
    /// The regular expression that each character must match.
    pub closed spec fn pattern(&self) -> Seq<char> {
        self.charset@
    }

    /// A generator over the characters that `charset` accepts.
    pub fn new(charset: String) -> (r: Random)
        ensures
            r.pattern() == charset@,
    {
        Random { charset }
    }

    /// The characters that this generator's pattern accepts, in code order;
    /// none where the pattern does not compile.
    pub fn alphabet(&self) -> (r: Option<Vec<char>>)
        ensures
            r is Some <==> regex_compiles(self.pattern()),
            r is Some ==> (forall|i: int|
                0 <= i < r->Some_0.len() ==> accepts(self.pattern(), #[trigger] r->Some_0[i])),
            r is Some ==> (forall|c: char|
                accepts(self.pattern(), c) ==> r->Some_0@.contains(c)),
    {
        let mut candidates: Vec<char> = Vec::new();
        let mut code: u16 = 0;
        while code <= LAST_CODE as u16
            invariant
                code <= LAST_CODE + 1,
                candidates.len() == code,
                forall|k: int| 0 <= k < code ==> (#[trigger] candidates[k]) as int == k,
            decreases LAST_CODE + 1 - code,
        {
            candidates.push((code as u8) as char);
            code = code + 1;
        }
        let matched = match match_each(self.charset.as_str(), &candidates) {
            Some(m) => m,
            None => return None,
        };
        let mut chosen: Vec<char> = Vec::new();
        let mut i: usize = 0;
        while i < candidates.len()
            invariant
                candidates.len() == LAST_CODE + 1,
                matched.len() == candidates.len(),
                i <= candidates.len(),
                forall|k: int| 0 <= k < candidates.len() ==> (#[trigger] candidates[k]) as int == k,
                forall|k: int|
                    0 <= k < candidates.len() ==> matched[k] == regex_matches(
                        self.pattern(),
                        seq![#[trigger] candidates[k]],
                    ),
                forall|k: int| 0 <= k < chosen.len() ==> accepts(self.pattern(), #[trigger] chosen[k]),
                forall|k: int|
                    0 <= k < i && matched[k] ==> chosen@.contains(#[trigger] candidates[k]),
            decreases candidates.len() - i,
        {
            if matched[i] {
                let ghost before = chosen@;
                chosen.push(candidates[i]);
                proof {
                    assert forall|k: int|
                        0 <= k < i + 1 && matched[k] implies chosen@.contains(
                        #[trigger] candidates[k],
                    ) by {
                        if k == i {
                            assert(chosen@[before.len() as int] == candidates[k]);
                        } else {
                            let j = choose|j: int|
                                0 <= j < before.len() && before[j] == candidates[k];
                            assert(chosen@[j] == candidates[k]);
                        }
                    }
                }
            }
            i = i + 1;
        }
        assert forall|c: char| accepts(self.pattern(), c) implies chosen@.contains(c) by {
            let k = c as int;
            assert(candidates[k] as int == k);
            assert(matched[k]);
            assert(candidates[k] == c);
        }
        Some(chosen)
    }

    /// A random string of `length` characters, each drawn uniformly from those
    /// that the pattern accepts. None where the pattern does not compile, or
    /// where it accepts no character and `length` is not zero.
    pub fn generate(&self, length: usize) -> (r: Option<String>)
        ensures
            r is Some <==> regex_compiles(self.pattern()) && (length == 0 || exists|c: char|
                accepts(self.pattern(), c)),
            r is Some ==> r->Some_0@.len() == length,
            r is Some ==> forall|i: int|
                0 <= i < length ==> accepts(self.pattern(), #[trigger] r->Some_0@[i]),
    {
        let alphabet = match self.alphabet() {
            Some(a) => a,
            None => return None,
        };
        if length > 0 && alphabet.len() == 0 {
            proof {
                assert forall|c: char| !accepts(self.pattern(), c) by {
                    if accepts(self.pattern(), c) {
                        assert(alphabet@.contains(c));
                    }
                }
            }
            return None;
        }
        let mut out = String::new();
        let mut n: usize = 0;
        while n < length
            invariant
                n <= length,
                length > 0 ==> alphabet.len() > 0,
                out@.len() == n,
                forall|i: int| 0 <= i < alphabet.len() ==> accepts(self.pattern(), #[trigger] alphabet[i]),
                forall|i: int| 0 <= i < n ==> accepts(self.pattern(), #[trigger] out@[i]),
            decreases length - n,
        {
            let k = draw_below(alphabet.len());
            out.push(alphabet[k]);
            n = n + 1;
        }
        proof {
            if length > 0 {
                assert(accepts(self.pattern(), alphabet[0]));
            }
        }
        Some(out)
    }
}

impl Default for Random {
    /// A generator over the alphabetic characters.
    fn default() -> (r: Random)
        ensures
            r.pattern() == "[[:alpha:]]"@,
    {
        Random { charset: String::from_str("[[:alpha:]]") }
    }
}

} // verus!
