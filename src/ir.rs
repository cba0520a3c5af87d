use vstd::prelude::*;

use crate::command::strs;
use crate::text::{chars_of, push_all, string_of_chars};

verus! {

/// The keyword the older IR syntax writes before each metadata reference.
pub const METADATA_KEYWORD: &'static str = "metadata ";

/// How many chars the rewrite drops from the start of a metadata line: the
/// length of the keyword that the sigil rewrite put there.
pub const KEYWORD_OFFSET: usize = 9;

/// Every occurrence of `pat` in `s`, found left to right without overlap,
/// replaced by `rep`.
pub open spec fn replace_all(s: Seq<char>, pat: Seq<char>, rep: Seq<char>) -> Seq<char>
    decreases s.len(),
{
    if pat.len() == 0 || s.len() < pat.len() {
        s
    } else if pat.is_prefix_of(s) {
        rep + replace_all(s.skip(pat.len() as int), pat, rep)
    } else {
        seq![s[0]] + replace_all(s.drop_first(), pat, rep)
    }
}

/// A line that begins a metadata definition.
pub open spec fn is_sigil_line(l: Seq<char>) -> bool {
    l.len() > 0 && l[0] == '!'
}

/// The repair of one IR line: on a metadata line every `!` becomes
/// `metadata !`, `distinct metadata` collapses to `metadata`, and the keyword
/// that now opens the line is dropped. Other lines are kept as they are.
pub open spec fn repaired_line(l: Seq<char>) -> Seq<char> {
    if is_sigil_line(l) {
        replace_all(
            replace_all(l, "!"@, "metadata !"@),
            "distinct metadata"@,
            "metadata"@,
        ).skip(9)
    } else {
        l
    }
}

/// Each line repaired and followed by a newline.
pub open spec fn repaired_text(ls: Seq<Seq<char>>) -> Seq<char>
    decreases ls.len(),
{
    if ls.len() == 0 {
        seq![]
    } else {
        repaired_text(ls.drop_last()) + repaired_line(ls.last()) + seq!['\n']
    }
}

/// The line after `n` repairs.
pub open spec fn repaired_times(l: Seq<char>, n: nat) -> Seq<char>
    decreases n,
{
    if n == 0 {
        l
    } else {
        repaired_line(repaired_times(l, (n - 1) as nat))
    }
}

/// Where no occurrence of `pat` starts in the first `k` chars, those chars
/// come through the replacement unchanged.
proof fn lemma_replace_keeps_prefix(s: Seq<char>, pat: Seq<char>, rep: Seq<char>, k: int)
    requires
        pat.len() > 0,
        0 <= k <= s.len(),
        forall|i: int| 0 <= i < k ==> !pat.is_prefix_of(#[trigger] s.skip(i)),
    ensures
        replace_all(s, pat, rep) == s.take(k) + replace_all(s.skip(k), pat, rep),
    decreases k,
{
    if k == 0 {
        assert(s.take(0) + s.skip(0) =~= s);
        assert(s.skip(0) =~= s);
        assert(s.take(0) + replace_all(s, pat, rep) =~= replace_all(s, pat, rep));
    } else {
        let t = s.drop_first();
        assert forall|i: int| 0 <= i < k - 1 implies !pat.is_prefix_of(#[trigger] t.skip(i)) by {
            assert(t.skip(i) =~= s.skip(i + 1));
        }
        lemma_replace_keeps_prefix(t, pat, rep, k - 1);
        assert(t.skip(k - 1) =~= s.skip(k));
        assert(s.skip(0) =~= s);
        if s.len() < pat.len() {
            assert(s.skip(k).len() < pat.len());
            assert(s.take(k) + s.skip(k) =~= s);
        } else {
            assert(s.take(k) =~= seq![s[0]] + t.take(k - 1));
        }
    }
}

/// A repaired metadata line is at least as long as the dropped keyword.
proof fn lemma_keyword_in_front(l: Seq<char>)
    requires
        is_sigil_line(l),
    ensures
        replace_all(replace_all(l, "!"@, "metadata !"@), "distinct metadata"@, "metadata"@).len()
            >= 9,
{
    reveal_strlit("!");
    reveal_strlit("metadata !");
    reveal_strlit("distinct metadata");
    reveal_strlit("metadata");
    let bang = "!"@;
    let m = "metadata !"@;
    let d = "distinct metadata"@;
    assert(bang.is_prefix_of(l));
    let a = replace_all(l, bang, m);
    assert(a == m + replace_all(l.skip(1), bang, m));
    assert forall|i: int| 0 <= i < 9 implies !d.is_prefix_of(#[trigger] a.skip(i)) by {
        if d.is_prefix_of(a.skip(i)) {
            assert(a.skip(i)[0] == d[0]);
            assert(a.skip(i)[1] == d[1]);
            assert(a[i] == m[i]);
            assert(a[i + 1] == m[i + 1]);
        }
    }
    lemma_replace_keeps_prefix(a, d, "metadata"@, 9);
}

/// Whether `pat` occurs in `s` at position `i`.
fn occurs_at(s: &Vec<char>, i: usize, pat: &Vec<char>) -> (r: bool)
    requires
        i <= s@.len(),
    ensures
        r == pat@.is_prefix_of(s@.skip(i as int)),
{
    if s.len() - i < pat.len() {
        return false;
    }
    let mut j: usize = 0;
    while j < pat.len()
        invariant
            i + pat@.len() <= s@.len(),
            j <= pat@.len(),
            forall|k: int| 0 <= k < j ==> s@[i + k] == pat@[k],
        decreases pat@.len() - j,
    {
        assert(i + j < s.len());
        if s[i + j] != pat[j] {
            assert(s@.skip(i as int)[j as int] == s@[i + j]);
            return false;
        }
        j = j + 1;
    }
    assert(pat@ =~= s@.skip(i as int).subrange(0, pat@.len() as int));
    true
}

/// `s` with every occurrence of `pat` replaced by `rep`.
fn replace_chars(s: &Vec<char>, pat: &Vec<char>, rep: &Vec<char>) -> (r: Vec<char>)
    requires
        pat@.len() > 0,
    ensures
        r@ == replace_all(s@, pat@, rep@),
{
    let mut out: Vec<char> = Vec::new();
    let mut i: usize = 0;
    assert(s@.skip(0) =~= s@);
    while i < s.len()
        invariant
            pat@.len() > 0,
            i <= s@.len(),
            out@ + replace_all(s@.skip(i as int), pat@, rep@) == replace_all(s@, pat@, rep@),
        decreases s@.len() - i,
    {
        let ghost t = s@.skip(i as int);
        if occurs_at(s, i, pat) {
            push_all(&mut out, rep);
            assert(t.skip(pat@.len() as int) =~= s@.skip(i + pat@.len()));
            i = i + pat.len();
        } else {
            out.push(s[i]);
            proof {
                assert(t.drop_first() =~= s@.skip(i + 1));
                if t.len() < pat@.len() {
                    assert(t =~= seq![t[0]] + t.drop_first());
                }
            }
            i = i + 1;
        }
    }
    assert(s@.skip(i as int) =~= Seq::<char>::empty());
    assert(out@ + Seq::<char>::empty() =~= out@);
    out
}

/// The repair of one line, on chars.
fn repair_chars(l: Vec<char>) -> (r: Vec<char>)
    ensures
        r@ == repaired_line(l@),
{
    if l.len() > 0 && l[0] == '!' {
        proof {
            reveal_strlit("!");
            reveal_strlit("distinct metadata");
            lemma_keyword_in_front(l@);
        }
        let a = replace_chars(&l, &chars_of("!"), &chars_of("metadata !"));
        let mut b = replace_chars(&a, &chars_of("distinct metadata"), &chars_of("metadata"));
        let r = b.split_off(KEYWORD_OFFSET);
        assert(r@ =~= repaired_line(l@));
        r
    } else {
        l
    }
}

/// Repairs one line of IR text for the older metadata syntax.
pub fn repair_line(line: &str) -> (r: String)
    ensures
        r@ == repaired_line(line@),
{
    string_of_chars(&repair_chars(chars_of(line)))
}

/// Repairs each line and joins them, each followed by a newline: the text
/// handed to the optimizer.
pub fn repair_lines(lines: &Vec<String>) -> (r: String)
    ensures
        r@ == repaired_text(strs(lines@)),
{
    let ghost ls = strs(lines@);
    let mut out: Vec<char> = Vec::new();
    let mut i: usize = 0;
    while i < lines.len()
        invariant
            ls == strs(lines@),
            i <= lines@.len(),
            out@ == repaired_text(ls.take(i as int)),
        decreases lines@.len() - i,
    {
        let fixed = repair_chars(chars_of(lines[i].as_str()));
        push_all(&mut out, &fixed);
        out.push('\n');
        assert(ls.take(i + 1).drop_last() =~= ls.take(i as int));
        i = i + 1;
    }
    assert(ls.take(i as int) =~= ls);
    string_of_chars(&out)
}

/// Lines that do not begin a metadata definition are left byte-identical by
/// the repair, however many times it runs.
pub proof fn lemma_plain_lines_unchanged(l: Seq<char>, n: nat)
    requires
        !is_sigil_line(l),
    ensures
        repaired_times(l, n) == l,
    decreases n,
{
    if n > 0 {
        lemma_plain_lines_unchanged(l, (n - 1) as nat);
    }
}

} // verus!
