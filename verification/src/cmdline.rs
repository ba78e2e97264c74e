//! The command line of the first user process.
use vstd::prelude::*;

verus! {

/// Unicode `White_Space`, the property that `char::is_whitespace` tests.
pub open spec fn is_whitespace_spec(c: char) -> bool {
    let v = c as u32;
    ||| 0x9 <= v <= 0xd
    ||| v == 0x20
    ||| v == 0x85
    ||| v == 0xa0
    ||| v == 0x1680
    ||| 0x2000 <= v <= 0x200a
    ||| v == 0x2028
    ||| v == 0x2029
    ||| v == 0x202f
    ||| v == 0x205f
    ||| v == 0x3000
}

/// Whether `c` is white space.
pub fn is_whitespace(c: char) -> (r: bool)
    ensures
        r == is_whitespace_spec(c),
{
    let v = c as u32;
    (0x9 <= v && v <= 0xd) || v == 0x20 || v == 0x85 || v == 0xa0 || v == 0x1680 || (0x2000 <= v
        && v <= 0x200a) || v == 0x2028 || v == 0x2029 || v == 0x202f || v == 0x205f || v == 0x3000
}

/// Every character of `s` is white space (so `s.trim()` is empty).
pub open spec fn is_blank_spec(s: Seq<char>) -> bool {
    forall|i: int| 0 <= i < s.len() ==> is_whitespace_spec(#[trigger] s[i])
}

/// The length of the run of non-white-space characters that `s` starts with.
pub open spec fn word_len(s: Seq<char>) -> nat
    decreases s.len(),
{
    if s.len() == 0 || is_whitespace_spec(s[0]) {
        0
    } else {
        1 + word_len(s.drop_first())
    }
}

pub proof fn lemma_word_len_bound(s: Seq<char>)
    ensures
        word_len(s) <= s.len(),
        s.len() > 0 && !is_whitespace_spec(s[0]) ==> word_len(s) >= 1,
    decreases s.len(),
{
    if s.len() > 0 && !is_whitespace_spec(s[0]) {
        lemma_word_len_bound(s.drop_first());
    }
}

/// The words of `s`: its maximal runs of non-white-space characters, in
/// order (what `str::split_whitespace` yields).
pub open spec fn words(s: Seq<char>) -> Seq<Seq<char>>
    decreases s.len(),
{
    if s.len() == 0 {
        Seq::empty()
    } else if is_whitespace_spec(s[0]) {
        words(s.drop_first())
    } else {
        proof {
            lemma_word_len_bound(s);
        }
        seq![s.take(word_len(s) as int)] + words(s.skip(word_len(s) as int))
    }
}

/// The contents of a sequence of strings.
pub open spec fn views(v: Seq<String>) -> Seq<Seq<char>> {
    v.map_values(|x: String| x@)
}

/// `word_len` of a run of exactly `k` non-white-space characters.
proof fn lemma_word_len_exact(t: Seq<char>, k: int)
    requires
        0 <= k <= t.len(),
        forall|j: int| 0 <= j < k ==> !is_whitespace_spec(#[trigger] t[j]),
        k == t.len() || is_whitespace_spec(t[k]),
    ensures
        word_len(t) == k,
    decreases k,
{
    if k > 0 {
        let u = t.drop_first();
        assert forall|j: int| 0 <= j < k - 1 implies !is_whitespace_spec(#[trigger] u[j]) by {
            assert(u[j] == t[j + 1]);
        }
        if k < t.len() {
            assert(u[k - 1] == t[k]);
        }
        lemma_word_len_exact(u, k - 1);
    }
}

/// Splitting a suffix that starts with white space.
proof fn lemma_words_skip_space(s: Seq<char>, i: int)
    requires
        0 <= i < s.len(),
        is_whitespace_spec(s[i]),
    ensures
        words(s.skip(i)) == words(s.skip(i + 1)),
{
    assert(s.skip(i).drop_first() =~= s.skip(i + 1));
}

/// Splitting a suffix that starts with the word `s[start..end]`.
proof fn lemma_words_skip_word(s: Seq<char>, start: int, end: int)
    requires
        0 <= start < end <= s.len(),
        forall|j: int| start <= j < end ==> !is_whitespace_spec(#[trigger] s[j]),
        end == s.len() || is_whitespace_spec(s[end]),
    ensures
        words(s.skip(start)) == seq![s.subrange(start, end)] + words(s.skip(end)),
{
    let t = s.skip(start);
    assert forall|j: int| 0 <= j < end - start implies !is_whitespace_spec(#[trigger] t[j]) by {
        assert(t[j] == s[start + j]);
    }
    if end < s.len() {
        assert(t[end - start] == s[end]);
    }
    lemma_word_len_exact(t, end - start);
    assert(t[0] == s[start]);
    assert(t.take(end - start) =~= s.subrange(start, end));
    assert(t.skip(end - start) =~= s.skip(end));
}

/// Splits `s` at white space into owned words.
pub fn split_whitespace(s: &str) -> (r: Vec<String>)
    ensures
        views(r@) == words(s@),
{
    let n = s.unicode_len();
    let mut out: Vec<String> = Vec::new();
    let mut i: usize = 0;
    let mut start: usize = 0;
    let mut in_word = false;
    assert(s@.skip(0) =~= s@);
    assert(views(out@) + words(s@) =~= words(s@));
    while i < n
        invariant
            n == s@.len(),
            start <= i <= n,
            in_word ==> start < i,
            in_word ==> forall|j: int| start <= j < i ==> !is_whitespace_spec(#[trigger] s@[j]),
            !in_word ==> start == i,
            words(s@) == views(out@) + words(s@.skip(start as int)),
        decreases n - i,
    {
        let c = s.get_char(i);
        if is_whitespace(c) {
            if in_word {
                let w = s.substring_char(start, i).to_owned();
                proof {
                    lemma_words_skip_word(s@, start as int, i as int);
                    lemma_words_skip_space(s@, i as int);
                }
                let ghost before = out@;
                out.push(w);
                assert(views(out@) =~= views(before) + seq![s@.subrange(start as int, i as int)]);
                in_word = false;
            } else {
                proof {
                    lemma_words_skip_space(s@, i as int);
                }
            }
            start = i + 1;
        } else if !in_word {
            in_word = true;
            start = i;
        }
        i = i + 1;
    }
    if in_word {
        let w = s.substring_char(start, n).to_owned();
        proof {
            lemma_words_skip_word(s@, start as int, n as int);
        }
        let ghost before = out@;
        out.push(w);
        assert(views(out@) =~= views(before) + seq![s@.subrange(start as int, n as int)]);
    }
    assert(s@.skip(n as int) =~= Seq::<char>::empty());
    assert(views(out@) + Seq::<Seq<char>>::empty() =~= views(out@));
    out
}

/// Whether every character of `s` is white space.
pub fn is_blank(s: &str) -> (r: bool)
    ensures
        r == is_blank_spec(s@),
{
    let n = s.unicode_len();
    let mut i: usize = 0;
    while i < n
        invariant
            n == s@.len(),
            i <= n,
            forall|j: int| 0 <= j < i ==> is_whitespace_spec(#[trigger] s@[j]),
        decreases n - i,
    {
        if !is_whitespace(s.get_char(i)) {
            return false;
        }
        i = i + 1;
    }
    true
}

/// The command line of the first user process: the words of the configured
/// command line when it is given and not blank, otherwise the shell running
/// the init script.
pub open spec fn init_cmdline_spec(cmdline: Option<Seq<char>>, init_script: Seq<char>) -> Seq<Seq<char>> {
    if cmdline is Some && !is_blank_spec(cmdline->0) {
        words(cmdline->0)
    } else {
        seq!["/bin/sh"@, "-c"@, init_script]
    }
}

/// The command line of the first user process. `cmdline` is the
/// build-time `INIT_CMDLINE`, if it was set; `init_script` is the script the
/// default command line hands to `/bin/sh -c`.
pub fn init_cmdline(cmdline: Option<&str>, init_script: &str) -> (r: Vec<String>)
    ensures
        views(r@) == init_cmdline_spec(
            match cmdline {
                Some(c) => Some(c@),
                None => None,
            },
            init_script@,
        ),
{
    if let Some(c) = cmdline {
        if !is_blank(c) {
            return split_whitespace(c);
        }
    }
    let mut r: Vec<String> = Vec::new();
    r.push("/bin/sh".to_owned());
    r.push("-c".to_owned());
    r.push(init_script.to_owned());
    assert(views(r@) =~= seq!["/bin/sh"@, "-c"@, init_script@]);
    r
}

} // verus!
