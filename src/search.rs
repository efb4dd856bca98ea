use vstd::prelude::*;

use crate::text::{ascii_lower, contains, contains_exec, lower, occurs_at, string_of};

verus! {

/// Drops one carriage return that ends a line, so that "\r\n" ends a line
/// just as "\n" does.
pub open spec fn trim_cr(l: Seq<char>) -> Seq<char> {
    if l.len() > 0 && l.last() == '\r' {
        l.drop_last()
    } else {
        l
    }
}

/// The lines completed within the first `n` characters of `s`, and the
/// unfinished line that follows them.
pub open spec fn scan_lines(s: Seq<char>, n: nat) -> (Seq<Seq<char>>, Seq<char>)
    decreases n,
{
    if n == 0 || n > s.len() {
        (Seq::empty(), Seq::empty())
    } else {
        let (done, cur) = scan_lines(s, (n - 1) as nat);
        if s[n - 1] == '\n' {
            (done.push(trim_cr(cur)), Seq::empty())
        } else {
            (done, cur.push(s[n - 1]))
        }
    }
}

/// The lines of `s`, in order: each newline ends a line, and a non-empty
/// remainder after the last newline is one more line.
pub open spec fn lines_of(s: Seq<char>) -> Seq<Seq<char>> {
    let (done, cur) = scan_lines(s, s.len());
    if cur.len() == 0 {
        done
    } else {
        done.push(cur)
    }
}

/// Whether `line` matches `query`: substring containment, after ASCII
/// lower-casing of both sides in case-insensitive mode.
pub open spec fn line_matches(line: Seq<char>, query: Seq<char>, case_insensitive: bool) -> bool {
    if case_insensitive {
        contains(lower(line), lower(query))
    } else {
        contains(line, query)
    }
}

/// The match predicate for one query and mode.
pub open spec fn matcher(query: Seq<char>, case_insensitive: bool) -> spec_fn(Seq<char>) -> bool {
    |line: Seq<char>| line_matches(line, query, case_insensitive)
}

/// The lines of `content` that match `query`, in their original order.
pub open spec fn search_spec(content: Seq<char>, query: Seq<char>, case_insensitive: bool) -> Seq<
    Seq<char>,
> {
    lines_of(content).filter(matcher(query, case_insensitive))
}

/// The texts held by a sequence of strings.
pub open spec fn views(v: Seq<String>) -> Seq<Seq<char>> {
    v.map_values(|s: String| s@)
}

/// The characters of `s`, in order.
pub fn chars_of(s: &str) -> (r: Vec<char>)
    ensures
        r@ == s@,
{
    let mut r: Vec<char> = Vec::new();
    for c in it: s.chars()
        invariant
            it.seq() == s@,
            r@ == s@.take(it.index() as int),
    {
        r.push(c);
    }
    r
}

/// Filtering by a predicate that holds everywhere keeps the whole sequence.
proof fn lemma_filter_keeps_all(s: Seq<Seq<char>>, pred: spec_fn(Seq<char>) -> bool)
    requires
        forall|x: Seq<char>| #[trigger] pred(x),
    ensures
        s.filter(pred) == s,
    decreases s.len(),
{
    reveal(Seq::filter);
    if s.len() > 0 {
        lemma_filter_keeps_all(s.drop_last(), pred);
        assert(s.drop_last().push(s.last()) =~= s);
    }
}

/// An empty query matches every line, in either mode: the search returns
/// all the lines of the content, in order.
pub proof fn lemma_empty_query_keeps_every_line(content: Seq<char>, case_insensitive: bool)
    ensures
        search_spec(content, Seq::empty(), case_insensitive) == lines_of(content),
{
    let empty = Seq::<char>::empty();
    let pred = matcher(empty, case_insensitive);
    assert(lower(empty) =~= empty);
    assert forall|l: Seq<char>| #[trigger] pred(l) by {
        assert(l.subrange(0, 0) =~= empty);
        assert(occurs_at(l, empty, 0));
        assert(lower(l).subrange(0, 0) =~= empty);
        assert(occurs_at(lower(l), empty, 0));
    }
    lemma_filter_keeps_all(lines_of(content), pred);
}

/// Drops one carriage return that ends `v`.
fn trim_cr_exec(v: &mut Vec<char>)
    ensures
        final(v)@ == trim_cr(old(v)@),
{
    if v.len() > 0 && v[v.len() - 1] == '\r' {
        v.pop();
    }
}

/// Appends `line` to `out` when it matches; `folded` is the query, already
/// lower-cased in case-insensitive mode.
fn keep_if_match(
    out: &mut Vec<String>,
    line: &Vec<char>,
    folded: &Vec<char>,
    Ghost(query): Ghost<Seq<char>>,
    case_insensitive: bool,
)
    requires
        folded@ == (if case_insensitive { lower(query) } else { query }),
    ensures
        views(final(out)@) == (if line_matches(line@, query, case_insensitive) {
            views(old(out)@).push(line@)
        } else {
            views(old(out)@)
        }),
{
    let hit = if case_insensitive {
        let l = ascii_lower(line);
        contains_exec(&l, folded)
    } else {
        contains_exec(line, folded)
    };
    if hit {
        let ghost before = out@;
        out.push(string_of(line));
        assert(views(out@) =~= views(before).push(line@));
    }
}

/// The lines of `content` that contain `query`, in their original order and
/// each once; in case-insensitive mode ASCII letters compare without regard
/// to case. An empty query matches every line.
pub fn search(content: &str, query: &str, case_insensitive: bool) -> (r: Vec<String>)
    ensures
        views(r@) == search_spec(content@, query@, case_insensitive),
{
    let q = chars_of(query);
    let folded = if case_insensitive {
        ascii_lower(&q)
    } else {
        q
    };
    let text = chars_of(content);
    let ghost pred = matcher(query@, case_insensitive);
    let mut out: Vec<String> = Vec::new();
    let mut cur: Vec<char> = Vec::new();
    let mut i: usize = 0;
    while i < text.len()
        invariant
            i <= text@.len(),
            text@ == content@,
            pred == matcher(query@, case_insensitive),
            folded@ == (if case_insensitive { lower(query@) } else { query@ }),
            cur@ == scan_lines(text@, i as nat).1,
            views(out@) == scan_lines(text@, i as nat).0.filter(pred),
        decreases text@.len() - i,
    {
        let c = text[i];
        proof {
            broadcast use Seq::lemma_filter_push;
        }
        if c == '\n' {
            trim_cr_exec(&mut cur);
            keep_if_match(&mut out, &cur, &folded, Ghost(query@), case_insensitive);
            cur = Vec::new();
        } else {
            cur.push(c);
        }
        i = i + 1;
    }
    proof {
        broadcast use Seq::lemma_filter_push;
    }
    if cur.len() > 0 {
        keep_if_match(&mut out, &cur, &folded, Ghost(query@), case_insensitive);
    }
    out
}

} // verus!
