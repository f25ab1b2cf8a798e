//! Choosing where proxy settings are applied.
use vstd::prelude::*;

verus! {

/// The target of proxy settings.
#[derive(Clone, Copy, Debug, PartialEq, Eq, Structural)]
pub enum Mode {
    /// Decide from the login shell.
    Auto,
    /// The environment of this process and its children.
    Process,
    /// The fish shell's universal variables.
    FishUvars,
}

/// Whether `pat` occurs in `s` as a contiguous run.
pub open spec fn has_infix(s: Seq<char>, pat: Seq<char>) -> bool {
    exists|i: int| 0 <= i && i + pat.len() <= s.len() && #[trigger] s.subrange(i, i + pat.len()) == pat
}

/// Whether `s` holds `pat` starting at position `i`, checked char by char.
fn matches_at(s: &str, n: usize, pat: &str, m: usize, i: usize) -> (r: bool)
    requires
        n == s@.len(),
        m == pat@.len(),
        i + m <= n,
    ensures
        r == (s@.subrange(i as int, i + m) == pat@),
{
    let mut j: usize = 0;
    while j < m
        invariant
            n == s@.len(),
            m == pat@.len(),
            i + m <= n,
            j <= m,
            s@.subrange(i as int, i + j) =~= pat@.subrange(0, j as int),
        decreases m - j,
    {
        if s.get_char(i + j) != pat.get_char(j) {
            assert(s@.subrange(i as int, i + m)[j as int] != pat@[j as int]);
            return false;
        }
        j = j + 1;
        assert(s@.subrange(i as int, i + j) =~= pat@.subrange(0, j as int));
    }
    assert(pat@.subrange(0, m as int) =~= pat@);
    true
}

/// Whether `pat` occurs anywhere in `s`.
pub fn contains_text(s: &str, pat: &str) -> (r: bool)
    ensures
        r == has_infix(s@, pat@),
{
    let n = s.unicode_len();
    let m = pat.unicode_len();
    if m > n {
        return false;
    }
    if m == 0 {
        assert(s@.subrange(0, 0 + pat@.len() as int) =~= pat@);
        return true;
    }
    let mut i: usize = 0;
    while i <= n - m
        invariant
            n == s@.len(),
            m == pat@.len(),
            0 < m <= n,
            i <= n - m + 1,
            forall|k: int| 0 <= k < i ==> #[trigger] s@.subrange(k, k + m) != pat@,
        decreases n - m + 1 - i,
    {
        if matches_at(s, n, pat, m, i) {
            assert(s@.subrange(i as int, i + pat@.len()) == pat@);
            return true;
        }
        i = i + 1;
    }
    assert forall|k: int| 0 <= k && k + pat@.len() <= s@.len() implies #[trigger] s@.subrange(
        k,
        k + pat@.len(),
    ) != pat@ by {
        assert(k < i);
    }
    false
}

/// Whether a login shell path names the fish shell.
pub open spec fn names_fish(shell: Seq<char>) -> bool {
    has_infix(shell, "fish"@)
}

/// Whether the login shell (the value of `SHELL`, empty when unset) is fish.
pub fn is_fish(shell: &str) -> (r: bool)
    ensures
        r == names_fish(shell@),
{
    contains_text(shell, "fish")
}

/// The target that a requested mode resolves to.
pub open spec fn resolved(cli_mode: Mode, shell: Seq<char>) -> Mode {
    match cli_mode {
        Mode::Auto => if names_fish(shell) {
            Mode::FishUvars
        } else {
            Mode::Process
        },
        other => other,
    }
}

/// Resolves the requested mode: an explicit one passes through, `Auto`
/// selects fish universal variables when the login shell is fish and the
/// process environment otherwise. Never returns `Auto`.
pub fn resolve_mode(cli_mode: Mode, shell: &str) -> (r: Mode)
    ensures
        r == resolved(cli_mode, shell@),
        r != Mode::Auto,
        cli_mode != Mode::Auto ==> r == cli_mode,
{
    match cli_mode {
        Mode::Auto => if is_fish(shell) {
            Mode::FishUvars
        } else {
            Mode::Process
        },
        other => other,
    }
}

} // verus!
