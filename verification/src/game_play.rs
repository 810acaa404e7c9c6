//! Turning one raw command line into the command-plus-argument shape the
//! game core consumes: the line is split on single spaces, the first part is
//! the command word, and a second part — present exactly when the line holds
//! exactly one space — is the argument. Both parts are stripped of leading
//! and trailing ASCII whitespace.

use vstd::prelude::*;

verus! {

/// ASCII whitespace, the characters stripped from the ends of a part.
pub open spec fn spec_is_space(c: char) -> bool {
    c == ' ' || c == '\t' || c == '\n' || c == '\r'
}

/// The part of a string before its first space: the index of the first space
/// character, or the length when there is none.
pub open spec fn spec_first_space(s: Seq<char>) -> int
    decreases s.len(),
{
    if s.len() == 0 {
        0
    } else if s[0] == ' ' {
        0
    } else {
        1 + spec_first_space(s.drop_first())
    }
}

/// How many space characters the string holds; the string splits into one
/// more part than that.
pub open spec fn spec_space_count(s: Seq<char>) -> nat
    decreases s.len(),
{
    if s.len() == 0 {
        0
    } else {
        spec_space_count(s.drop_last()) + if s.last() == ' ' {
            1nat
        } else {
            0nat
        }
    }
}

/// The string without its leading whitespace.
pub open spec fn spec_trim_start(s: Seq<char>) -> Seq<char>
    decreases s.len(),
{
    if s.len() > 0 && spec_is_space(s[0]) {
        spec_trim_start(s.drop_first())
    } else {
        s
    }
}

/// The string without its trailing whitespace.
pub open spec fn spec_trim_end(s: Seq<char>) -> Seq<char>
    decreases s.len(),
{
    if s.len() > 0 && spec_is_space(s.last()) {
        spec_trim_end(s.drop_last())
    } else {
        s
    }
}

/// The string without leading and trailing whitespace.
pub open spec fn spec_trim(s: Seq<char>) -> Seq<char> {
    spec_trim_end(spec_trim_start(s))
}

fn is_space_char(c: char) -> (b: bool)
    ensures
        b == spec_is_space(c),
{
    c == ' ' || c == '\t' || c == '\n' || c == '\r'
}

fn find_first_space(s: &str) -> (k: usize)
    ensures
        k <= s@.len(),
        forall|j: int| 0 <= j < k ==> s@[j] != ' ',
        k < s@.len() ==> s@[k as int] == ' ',
{
    let n: usize = s.unicode_len();
    let mut i: usize = 0;
    while i < n
        invariant
            i <= n,
            n == s@.len(),
            forall|j: int| 0 <= j < i ==> s@[j] != ' ',
        decreases n - i,
    {
        if s.get_char(i) == ' ' {
            return i;
        }
        i += 1;
    }
    n
}

fn find_first_nonspace(s: &str) -> (k: usize)
    ensures
        k <= s@.len(),
        forall|j: int| 0 <= j < k ==> spec_is_space(s@[j]),
        k < s@.len() ==> !spec_is_space(s@[k as int]),
{
    let n: usize = s.unicode_len();
    let mut i: usize = 0;
    while i < n
        invariant
            i <= n,
            n == s@.len(),
            forall|j: int| 0 <= j < i ==> spec_is_space(s@[j]),
        decreases n - i,
    {
        if !is_space_char(s.get_char(i)) {
            return i;
        }
        i += 1;
    }
    n
}

fn find_last_nonspace(s: &str) -> (k: usize)
    ensures
        k <= s@.len(),
        forall|j: int| k <= j < s@.len() ==> spec_is_space(s@[j]),
        k > 0 ==> !spec_is_space(s@[k - 1]),
{
    let n: usize = s.unicode_len();
    let mut b: usize = n;
    while b > 0
        invariant
            b <= n,
            n == s@.len(),
            forall|j: int| b <= j < n ==> spec_is_space(s@[j]),
        decreases b,
    {
        if !is_space_char(s.get_char(b - 1)) {
            return b;
        }
        b -= 1;
    }
    0
}

fn count_spaces(s: &str) -> (c: usize)
    ensures
        c == spec_space_count(s@),
{
    let n: usize = s.unicode_len();
    let mut cnt: usize = 0;
    let mut i: usize = 0;
    while i < n
        invariant
            i <= n,
            n == s@.len(),
            cnt <= i,
            cnt == spec_space_count(s@.take(i as int)),
        decreases n - i,
    {
        proof {
            assert(s@.take(i + 1).drop_last() =~= s@.take(i as int));
            assert(s@.take(i + 1).last() == s@[i as int]);
        }
        if s.get_char(i) == ' ' {
            cnt += 1;
        }
        i += 1;
    }
    proof {
        assert(s@.take(n as int) =~= s@);
    }
    cnt
}

/// A prefix of spaces followed by a non-space (or the end) pins where
/// `spec_trim_start` stops.
proof fn lemma_trim_start_at(s: Seq<char>, a: int)
    requires
        0 <= a <= s.len(),
        forall|j: int| 0 <= j < a ==> spec_is_space(s[j]),
        a < s.len() ==> !spec_is_space(s[a]),
    ensures
        spec_trim_start(s) == s.subrange(a, s.len() as int),
    decreases a,
{
    if a == 0 {
        assert(s.subrange(0, s.len() as int) =~= s);
    } else {
        let t = s.drop_first();
        assert forall|j: int| 0 <= j < a - 1 implies spec_is_space(t[j]) by {
            assert(t[j] == s[j + 1]);
        }
        lemma_trim_start_at(t, a - 1);
        assert(t.subrange(a - 1, t.len() as int) =~= s.subrange(a, s.len() as int));
    }
}

/// A suffix of spaces preceded by a non-space (or the start) pins where
/// `spec_trim_end` stops.
proof fn lemma_trim_end_at(s: Seq<char>, b: int)
    requires
        0 <= b <= s.len(),
        forall|j: int| b <= j < s.len() ==> spec_is_space(s[j]),
        b > 0 ==> !spec_is_space(s[b - 1]),
    ensures
        spec_trim_end(s) == s.subrange(0, b),
    decreases s.len() - b,
{
    if b == s.len() {
        assert(s.subrange(0, s.len() as int) =~= s);
    } else {
        let t = s.drop_last();
        lemma_trim_end_at(t, b);
        assert(t.subrange(0, b) =~= s.subrange(0, b));
    }
}

/// The recursive first-space function agrees with any index found by a scan.
proof fn lemma_first_space_at(s: Seq<char>, k: int)
    requires
        0 <= k <= s.len(),
        forall|j: int| 0 <= j < k ==> s[j] != ' ',
        k < s.len() ==> s[k] == ' ',
    ensures
        spec_first_space(s) == k,
    decreases k,
{
    if k > 0 {
        let t = s.drop_first();
        assert forall|j: int| 0 <= j < k - 1 implies t[j] != ' ' by {
            assert(t[j] == s[j + 1]);
        }
        lemma_first_space_at(t, k - 1);
    }
}

/// A string without spaces counts zero of them, and one with a space counts
/// at least one.
proof fn lemma_space_count_zero(s: Seq<char>)
    ensures
        (spec_space_count(s) == 0) <==> (forall|j: int| 0 <= j < s.len() ==> s[j] != ' '),
    decreases s.len(),
{
    if s.len() > 0 {
        lemma_space_count_zero(s.drop_last());
        assert forall|j: int| 0 <= j < s.len() - 1 implies s.drop_last()[j] == s[j] by {}
        if spec_space_count(s) == 0 {
            assert forall|j: int| 0 <= j < s.len() implies s[j] != ' ' by {
                if j < s.len() - 1 {
                    assert(s.drop_last()[j] != ' ');
                } else {
                    assert(s.last() != ' ');
                }
            }
        }
    }
}

/// Strip leading and trailing ASCII whitespace.
fn trim_str(t: &str) -> (r: String)
    ensures
        r@ == spec_trim(t@),
{
    let n: usize = t.unicode_len();
    let a = find_first_nonspace(t);
    let b = find_last_nonspace(t);
    proof {
        lemma_trim_start_at(t@, a as int);
    }
    if a >= b {
        proof {
            assert(a == n) by {
                if a < n {
                    assert(spec_is_space(t@[a as int]));
                }
            }
            assert(t@.subrange(n as int, n as int) =~= Seq::<char>::empty());
        }
        String::new()
    } else {
        let sub = t.substring_char(a, b);
        proof {
            let u = t@.subrange(a as int, n as int);
            assert forall|j: int| b - a <= j < u.len() implies spec_is_space(u[j]) by {
                assert(u[j] == t@[a + j]);
            }
            assert(u[b - a - 1] == t@[b - 1]);
            lemma_trim_end_at(u, b - a);
            assert(u.subrange(0, b - a) =~= t@.subrange(a as int, b as int));
        }
        sub.to_owned()
    }
}

/// One issued command: the command word and its optional single argument.
#[derive(Debug)]
pub struct Action {
    pub command: String,
    pub argument: Option<String>,
}

impl Action {
    /// Split a raw input line into a command word and an optional argument.
    ///
    /// The line is split on single spaces; the command is the part before the
    /// first space. An argument exists exactly when the line splits into two
    /// parts, that is, holds exactly one space. Both parts are stripped of
    /// leading and trailing ASCII whitespace.
    pub fn parse(input: &String) -> (a: Action)
        ensures
            a.command@ == spec_trim(input@.take(spec_first_space(input@))),
            spec_space_count(input@) == 1 ==> (a.argument matches Some(arg) && arg@ == spec_trim(
                input@.skip(spec_first_space(input@) + 1),
            )),
            spec_space_count(input@) != 1 ==> a.argument matches None,
    {
        let s = input.as_str();
        let n: usize = s.unicode_len();
        let fs = find_first_space(s);
        proof {
            lemma_first_space_at(s@, fs as int);
        }
        let head = s.substring_char(0, fs);
        let command = trim_str(head);

        let cnt = count_spaces(s);
        let argument: Option<String> = if cnt == 1 {
            proof {
                lemma_space_count_zero(s@);
                assert(fs < n) by {
                    if fs == n {
                        assert(spec_space_count(s@) == 0);
                    }
                }
            }
            let tail = s.substring_char(fs + 1, n);
            Some(trim_str(tail))
        } else {
            None
        };

        Action { command, argument }
    }
}

} // verus!
