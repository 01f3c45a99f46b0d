//! Parsing the search utility's captured output into the ordered list of
//! entries: the output is trimmed of surrounding whitespace, split on
//! newlines, and each record is trimmed again. An output with nothing but
//! whitespace yields no entries at all.

use vstd::prelude::*;
use vstd::string::*;

verus! {

/// The whitespace characters that trimming removes: blank, tab, carriage
/// return and line feed.
pub open spec fn is_space_char(c: char) -> bool {
    c == ' ' || c == '\t' || c == '\r' || c == '\n'
}

/// `s` without its leading whitespace.
pub open spec fn trim_start_spec(s: Seq<char>) -> Seq<char>
    decreases s.len(),
{
    if s.len() > 0 && is_space_char(s[0]) {
        trim_start_spec(s.drop_first())
    } else {
        s
    }
}

/// `s` without its trailing whitespace.
pub open spec fn trim_end_spec(s: Seq<char>) -> Seq<char>
    decreases s.len(),
{
    if s.len() > 0 && is_space_char(s[s.len() - 1]) {
        trim_end_spec(s.drop_last())
    } else {
        s
    }
}

/// `s` without its leading and trailing whitespace.
pub open spec fn trim_spec(s: Seq<char>) -> Seq<char> {
    trim_end_spec(trim_start_spec(s))
}

/// The newline-separated records of `s`, in order. Splitting an empty
/// sequence yields one empty record, as splitting a string does.
pub open spec fn split_lines_spec(s: Seq<char>) -> Seq<Seq<char>>
    decreases s.len(),
{
    if s.len() == 0 {
        seq![Seq::<char>::empty()]
    } else if s[0] == '\n' {
        seq![Seq::<char>::empty()] + split_lines_spec(s.drop_first())
    } else {
        let rest = split_lines_spec(s.drop_first());
        seq![seq![s[0]] + rest[0]] + rest.drop_first()
    }
}

/// Every record of `ls` with its surrounding whitespace removed.
pub open spec fn trim_all(ls: Seq<Seq<char>>) -> Seq<Seq<char>> {
    ls.map_values(|l: Seq<char>| trim_spec(l))
}

/// The character sequences held by a list of strings.
pub open spec fn views_of(es: Seq<String>) -> Seq<Seq<char>> {
    es.map_values(|e: String| e@)
}

/// The ordered entries parsed from the raw search output.
pub open spec fn entries_spec(s: Seq<char>) -> Seq<Seq<char>> {
    let t = trim_spec(s);
    if t.len() == 0 {
        Seq::empty()
    } else {
        trim_all(split_lines_spec(t))
    }
}

proof fn lemma_trim_start_skip(s: Seq<char>, i: int)
    requires
        0 <= i <= s.len(),
        forall|j: int| 0 <= j < i ==> is_space_char(s[j]),
        i < s.len() ==> !is_space_char(s[i]),
    ensures
        trim_start_spec(s) == s.skip(i),
    decreases i,
{
    if i == 0 {
        assert(s.skip(0) =~= s);
    } else {
        assert(is_space_char(s[0]));
        assert forall|j: int| 0 <= j < i - 1 implies is_space_char(s.drop_first()[j]) by {
            assert(s.drop_first()[j] == s[j + 1]);
        }
        assert(i - 1 < s.drop_first().len() ==> !is_space_char(s.drop_first()[i - 1]));
        lemma_trim_start_skip(s.drop_first(), i - 1);
        assert(s.drop_first().skip(i - 1) =~= s.skip(i));
    }
}

proof fn lemma_trim_end_take(s: Seq<char>, i: int)
    requires
        0 <= i <= s.len(),
        forall|j: int| i <= j < s.len() ==> is_space_char(s[j]),
        i > 0 ==> !is_space_char(s[i - 1]),
    ensures
        trim_end_spec(s) == s.take(i),
    decreases s.len() - i,
{
    if i == s.len() {
        assert(s.take(i) =~= s);
    } else {
        assert(is_space_char(s[s.len() - 1]));
        assert forall|j: int| i <= j < s.drop_last().len() implies is_space_char(
            s.drop_last()[j],
        ) by {
            assert(s.drop_last()[j] == s[j]);
        }
        lemma_trim_end_take(s.drop_last(), i);
        assert(s.drop_last().take(i) =~= s.take(i));
    }
}

proof fn lemma_split_no_newline(s: Seq<char>)
    requires
        forall|j: int| 0 <= j < s.len() ==> s[j] != '\n',
    ensures
        split_lines_spec(s) == seq![s],
    decreases s.len(),
{
    if s.len() == 0 {
        assert(s =~= Seq::<char>::empty());
    } else {
        assert(s[0] != '\n');
        assert forall|j: int| 0 <= j < s.drop_first().len() implies s.drop_first()[j] != '\n' by {
            assert(s.drop_first()[j] == s[j + 1]);
        }
        lemma_split_no_newline(s.drop_first());
        assert(seq![s[0]] + s.drop_first() =~= s);
        assert(split_lines_spec(s) =~= seq![s]);
    }
}

proof fn lemma_split_at_first_newline(s: Seq<char>, k: int)
    requires
        0 <= k < s.len(),
        s[k] == '\n',
        forall|j: int| 0 <= j < k ==> s[j] != '\n',
    ensures
        split_lines_spec(s) == seq![s.take(k)] + split_lines_spec(s.skip(k + 1)),
    decreases k,
{
    if k == 0 {
        assert(s.take(0) =~= Seq::<char>::empty());
        assert(s.drop_first() =~= s.skip(1));
    } else {
        assert(s[0] != '\n');
        let d = s.drop_first();
        assert(d[k - 1] == s[k]);
        assert forall|j: int| 0 <= j < k - 1 implies d[j] != '\n' by {
            assert(d[j] == s[j + 1]);
        }
        lemma_split_at_first_newline(d, k - 1);
        let rest = split_lines_spec(d);
        assert(rest == seq![d.take(k - 1)] + split_lines_spec(d.skip(k)));
        assert(rest[0] == d.take(k - 1));
        assert(rest.drop_first() =~= split_lines_spec(d.skip(k)));
        assert(seq![s[0]] + d.take(k - 1) =~= s.take(k));
        assert(d.skip(k) =~= s.skip(k + 1));
        assert(split_lines_spec(s) =~= seq![s.take(k)] + split_lines_spec(s.skip(k + 1)));
    }
}

fn is_space(c: char) -> (b: bool)
    ensures
        b == is_space_char(c),
{
    c == ' ' || c == '\t' || c == '\r' || c == '\n'
}

/// `s` with its surrounding whitespace removed.
pub fn trim_str<'a>(s: &'a str) -> (r: &'a str)
    ensures
        r@ == trim_spec(s@),
{
    let n = s.unicode_len();
    let mut first: usize = 0;
    while first < n && is_space(s.get_char(first))
        invariant
            n == s@.len(),
            first <= n,
            forall|j: int| 0 <= j < first ==> is_space_char(s@[j]),
        decreases n - first,
    {
        first = first + 1;
    }
    let mut last: usize = n;
    while last > first && is_space(s.get_char(last - 1))
        invariant
            n == s@.len(),
            first <= last <= n,
            forall|j: int| last <= j < n ==> is_space_char(s@[j]),
        decreases last,
    {
        last = last - 1;
    }
    proof {
        lemma_trim_start_skip(s@, first as int);
        let t = s@.skip(first as int);
        assert forall|j: int| last - first <= j < t.len() implies is_space_char(t[j]) by {
            assert(t[j] == s@[j + first]);
        }
        if last > first {
            assert(t[last - first - 1] == s@[last - 1]);
        }
        lemma_trim_end_take(t, last - first);
        assert(t.take(last - first) =~= s@.subrange(first as int, last as int));
    }
    s.substring_char(first, last)
}

fn split_trimmed_lines(t: &str) -> (r: Vec<String>)
    ensures
        views_of(r@) == trim_all(split_lines_spec(t@)),
{
    let n = t.unicode_len();
    let mut r: Vec<String> = Vec::new();
    let mut seg_start: usize = 0;
    let mut i: usize = 0;
    proof {
        assert(t@.skip(0) =~= t@);
        assert(views_of(r@) + trim_all(split_lines_spec(t@)) =~= trim_all(split_lines_spec(t@)));
    }
    while i < n
        invariant
            n == t@.len(),
            seg_start <= i <= n,
            forall|j: int| seg_start <= j < i ==> t@[j] != '\n',
            trim_all(split_lines_spec(t@)) == views_of(r@) + trim_all(
                split_lines_spec(t@.skip(seg_start as int)),
            ),
        decreases n - i,
    {
        if t.get_char(i) == '\n' {
            let piece = t.substring_char(seg_start, i);
            let trimmed = trim_str(piece);
            let ghost prev = r@;
            r.push(String::from_str(trimmed));
            proof {
                let rem = t@.skip(seg_start as int);
                assert forall|j: int| 0 <= j < i - seg_start implies rem[j] != '\n' by {
                    assert(rem[j] == t@[j + seg_start]);
                }
                assert(rem[i - seg_start] == t@[i as int]);
                lemma_split_at_first_newline(rem, i - seg_start);
                assert(rem.take(i - seg_start) =~= t@.subrange(seg_start as int, i as int));
                assert(rem.skip(i - seg_start + 1) =~= t@.skip(i + 1));
                assert(trim_all(split_lines_spec(rem)) =~= seq![trim_spec(piece@)] + trim_all(
                    split_lines_spec(t@.skip(i + 1)),
                ));
                assert(views_of(r@) =~= views_of(prev) + seq![trim_spec(piece@)]);
                assert(trim_all(split_lines_spec(t@)) =~= views_of(r@) + trim_all(
                    split_lines_spec(t@.skip(i + 1)),
                ));
            }
            seg_start = i + 1;
        }
        i = i + 1;
    }
    let piece = t.substring_char(seg_start, n);
    let trimmed = trim_str(piece);
    let ghost prev = r@;
    r.push(String::from_str(trimmed));
    proof {
        let rem = t@.skip(seg_start as int);
        assert forall|j: int| 0 <= j < rem.len() implies rem[j] != '\n' by {
            assert(rem[j] == t@[j + seg_start]);
        }
        lemma_split_no_newline(rem);
        assert(rem =~= t@.subrange(seg_start as int, n as int));
        assert(trim_all(split_lines_spec(rem)) =~= seq![trim_spec(piece@)]);
        assert(views_of(r@) =~= views_of(prev) + seq![trim_spec(piece@)]);
        assert(views_of(r@) =~= trim_all(split_lines_spec(t@)));
    }
    r
}

/// Parses the raw search output: trims it, and unless nothing remains,
/// splits it into trimmed newline-separated entries, in output order.
pub fn split_entries(text: &str) -> (r: Vec<String>)
    ensures
        views_of(r@) == entries_spec(text@),
{
    let t = trim_str(text);
    if t.unicode_len() == 0 {
        let r: Vec<String> = Vec::new();
        proof {
            assert(views_of(r@) =~= entries_spec(text@));
        }
        r
    } else {
        split_trimmed_lines(t)
    }
}

} // verus!
