//! Normalisation of console input: whitespace trimming and case-insensitive
//! recognition of the confirmation tokens.

use vstd::prelude::*;

verus! {

/// Whether `c` is one of the whitespace characters trimmed off an input line.
pub open spec fn is_space(c: char) -> bool {
    c == ' ' || c == '\t' || c == '\n' || c == '\r'
}

/// `s` with its leading whitespace removed.
pub open spec fn trim_front(s: Seq<char>) -> Seq<char>
    decreases s.len(),
{
    if s.len() > 0 && is_space(s[0]) {
        trim_front(s.drop_first())
    } else {
        s
    }
}

/// `s` with its trailing whitespace removed.
pub open spec fn trim_back(s: Seq<char>) -> Seq<char>
    decreases s.len(),
{
    if s.len() > 0 && is_space(s.last()) {
        trim_back(s.drop_last())
    } else {
        s
    }
}

/// `s` with its surrounding whitespace removed.
pub open spec fn trimmed(s: Seq<char>) -> Seq<char> {
    trim_back(trim_front(s))
}

/// Whether `c` upper-cases to the upper-case letter `u`: it is `u` itself or
/// the corresponding lower-case letter.
pub open spec fn reads_as_upper(c: char, u: char) -> bool {
    c == u || ('a' as u32 <= c as u32 && c as u32 <= 'z' as u32 && c as u32 == u as u32 + 32)
}

/// Whether `s`, upper-cased, is the word `w` (given in upper case).
pub open spec fn matches_word(s: Seq<char>, w: Seq<char>) -> bool {
    s.len() == w.len() && forall|i: int| 0 <= i < s.len() ==> reads_as_upper(s[i], #[trigger] w[i])
}

/// Whether the input, trimmed and upper-cased, is an affirmative token.
pub open spec fn is_yes(s: Seq<char>) -> bool {
    matches_word(trimmed(s), "YES"@) || matches_word(trimmed(s), "Y"@)
}

/// Whether the input, trimmed and upper-cased, is a negative token.
pub open spec fn is_no(s: Seq<char>) -> bool {
    matches_word(trimmed(s), "NO"@) || matches_word(trimmed(s), "N"@)
}

/// Trimming the front of `s` drops exactly its leading run of whitespace.
proof fn lemma_trim_front_skip(s: Seq<char>, k: int)
    requires
        0 <= k <= s.len(),
        forall|i: int| 0 <= i < k ==> is_space(#[trigger] s[i]),
        k == s.len() || !is_space(s[k]),
    ensures
        trim_front(s) == s.skip(k),
    decreases k,
{
    if k == 0 {
        assert(s.skip(0) =~= s);
    } else {
        let t = s.drop_first();
        assert(forall|i: int| 0 <= i < k - 1 ==> is_space(#[trigger] t[i]));
        lemma_trim_front_skip(t, k - 1);
        assert(t.skip(k - 1) =~= s.skip(k));
    }
}

/// Trimming the back of `s` drops exactly its trailing run of whitespace.
proof fn lemma_trim_back_take(s: Seq<char>, k: int)
    requires
        0 <= k <= s.len(),
        forall|i: int| k <= i < s.len() ==> is_space(#[trigger] s[i]),
        k == 0 || !is_space(s[k - 1]),
    ensures
        trim_back(s) == s.take(k),
    decreases s.len(),
{
    if k == s.len() {
        assert(s.take(k) =~= s);
    } else {
        let t = s.drop_last();
        assert(forall|i: int| k <= i < t.len() ==> is_space(#[trigger] t[i]));
        lemma_trim_back_take(t, k);
        assert(t.take(k) =~= s.take(k));
    }
}

/// Whether `c` is trimmed-off whitespace.
fn is_space_char(c: char) -> (r: bool)
    ensures
        r == is_space(c),
{
    c == ' ' || c == '\t' || c == '\n' || c == '\r'
}

/// Removes surrounding whitespace, as the view-level `trimmed` describes.
pub fn trim(input: &str) -> (r: &str)
    ensures
        r@ == trimmed(input@),
        r@.len() <= input@.len(),
{
    let n = input.unicode_len();
    let mut lo: usize = 0;
    while lo < n && is_space_char(input.get_char(lo))
        invariant
            lo <= n,
            n == input@.len(),
            forall|i: int| 0 <= i < lo ==> is_space(#[trigger] input@[i]),
        decreases n - lo,
    {
        lo = lo + 1;
    }
    let mut hi: usize = n;
    while hi > lo && is_space_char(input.get_char(hi - 1))
        invariant
            lo <= hi <= n,
            n == input@.len(),
            forall|i: int| 0 <= i < lo ==> is_space(#[trigger] input@[i]),
            forall|i: int| hi <= i < n ==> is_space(#[trigger] input@[i]),
        decreases hi,
    {
        hi = hi - 1;
    }
    let r = input.substring_char(lo, hi);
    proof {
        lemma_trim_front_skip(input@, lo as int);
        let t = input@.skip(lo as int);
        assert(forall|i: int| hi - lo <= i < t.len() ==> is_space(#[trigger] t[i]));
        lemma_trim_back_take(t, hi - lo);
        assert(t.take(hi - lo) =~= input@.subrange(lo as int, hi as int));
    }
    r
}

/// How an input at the confirmation prompt reads.
#[derive(Clone, Copy, PartialEq, Eq, Structural, Debug)]
pub enum Confirmation {
    /// An affirmative token: `YES` or `Y` in any letter case.
    Yes,
    /// A negative token: `NO` or `N` in any letter case.
    No,
    /// Anything else.
    Other,
}

/// Whether `c` upper-cases to the upper-case letter `u`.
fn reads_as_upper_char(c: char, u: char) -> (r: bool)
    ensures
        r == reads_as_upper(c, u),
{
    c == u || ('a' as u32 <= c as u32 && c as u32 <= 'z' as u32 && c as u32 == u as u32 + 32)
}

/// Whether `t`, upper-cased, is the word `w` (given in upper case).
fn matches_token(t: &str, w: &str) -> (r: bool)
    ensures
        r == matches_word(t@, w@),
{
    let n = t.unicode_len();
    let m = w.unicode_len();
    if n != m {
        return false;
    }
    let mut i: usize = 0;
    while i < n
        invariant
            i <= n,
            n == t@.len(),
            n == w@.len(),
            forall|j: int| 0 <= j < i ==> reads_as_upper(t@[j], #[trigger] w@[j]),
        decreases n - i,
    {
        if !reads_as_upper_char(t.get_char(i), w.get_char(i)) {
            assert(!matches_word(t@, w@));
            return false;
        }
        i = i + 1;
    }
    true
}

/// Reads a raw input line as an affirmative token, a negative token, or
/// neither, ignoring surrounding whitespace and letter case.
pub fn classify_confirmation(input: &str) -> (r: Confirmation)
    ensures
        r == Confirmation::Yes <==> is_yes(input@),
        r == Confirmation::No <==> is_no(input@),
{
    proof {
        reveal_strlit("YES");
        reveal_strlit("Y");
        reveal_strlit("NO");
        reveal_strlit("N");
    }
    let t = trim(input);
    let yes = matches_token(t, "YES") || matches_token(t, "Y");
    let no = matches_token(t, "NO") || matches_token(t, "N");
    proof {
        if matches_word(t@, "Y"@) && matches_word(t@, "N"@) {
            assert(reads_as_upper(t@[0], "Y"@[0]));
            assert(reads_as_upper(t@[0], "N"@[0]));
            assert(false);
        }
    }
    if yes {
        Confirmation::Yes
    } else if no {
        Confirmation::No
    } else {
        Confirmation::Other
    }
}

} // verus!
