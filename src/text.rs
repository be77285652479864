//! Text helpers: prefix tests, exact string comparison and the status lines.
use vstd::prelude::*;
use vstd::string::StrSliceExecFns;
use vstd::string::StringExecFns;

verus! {

/// `s` begins with the characters of `prefix`.
pub open spec fn has_prefix(s: Seq<char>, prefix: Seq<char>) -> bool {
    prefix.len() <= s.len() && s.subrange(0, prefix.len() as int) == prefix
}

/// Whether `s` begins with `prefix`, character by character.
pub fn starts_with(s: &str, prefix: &str) -> (r: bool)
    ensures
        r == has_prefix(s@, prefix@),
{
    let n = prefix.unicode_len();
    let m = s.unicode_len();
    if n > m {
        return false;
    }
    let mut i: usize = 0;
    while i < n
        invariant
            n as nat == prefix@.len(),
            m as nat == s@.len(),
            n <= m,
            i <= n,
            forall|j: int| 0 <= j < i ==> s@[j] == prefix@[j],
        decreases n - i,
    {
        if s.get_char(i) != prefix.get_char(i) {
            assert(s@.subrange(0, n as int)[i as int] != prefix@[i as int]);
            return false;
        }
        i = i + 1;
    }
    assert(s@.subrange(0, n as int) =~= prefix@);
    true
}

/// Whether `a` and `b` hold the same characters.
pub fn same_text(a: &str, b: &str) -> (r: bool)
    ensures
        r == (a@ == b@),
{
    let la = a.unicode_len();
    let lb = b.unicode_len();
    if la != lb {
        return false;
    }
    assert(a@.subrange(0, a@.len() as int) =~= a@);
    starts_with(a, b)
}

/// The line shown when a device `name` is opened.
pub open spec fn inhibited_text(name: Seq<char>) -> Seq<char> {
    "Idle inhibited by "@ + name
}

/// The line shown when a device `name` is closed.
pub open spec fn permitted_text(name: Seq<char>) -> Seq<char> {
    "Idle permitted by "@ + name
}

/// The line shown once the last user has gone and the inhibitor is released.
pub open spec fn allowed_text() -> Seq<char> {
    "Idle allowed"@
}

/// `Idle inhibited by <name>`.
pub fn inhibited_notice(name: &str) -> (r: String)
    ensures
        r@ == inhibited_text(name@),
{
    let mut line = String::from_str("Idle inhibited by ");
    line.append(name);
    line
}

/// `Idle permitted by <name>`.
pub fn permitted_notice(name: &str) -> (r: String)
    ensures
        r@ == permitted_text(name@),
{
    let mut line = String::from_str("Idle permitted by ");
    line.append(name);
    line
}

/// `Idle allowed`.
pub fn allowed_notice() -> (r: String)
    ensures
        r@ == allowed_text(),
{
    String::from_str("Idle allowed")
}

} // verus!
