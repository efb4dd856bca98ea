use vstd::prelude::*;

use crate::config::Config;
use crate::search::{search, search_spec, views};
use crate::text::push_char;

verus! {

/// The output text for `lines`: each line verbatim, followed by a newline.
pub open spec fn rendered(lines: Seq<Seq<char>>) -> Seq<char>
    decreases lines.len(),
{
    if lines.len() == 0 {
        Seq::empty()
    } else {
        rendered(lines.drop_last()) + lines.last().push('\n')
    }
}

/// Joins `lines` into one text, each line followed by a newline.
pub fn render(lines: &Vec<String>) -> (r: String)
    ensures
        r@ == rendered(views(lines@)),
{
    let mut r = String::new();
    let mut i: usize = 0;
    while i < lines.len()
        invariant
            i <= lines@.len(),
            r@ == rendered(views(lines@.take(i as int))),
        decreases lines@.len() - i,
    {
        r.append(lines[i].as_str());
        push_char(&mut r, '\n');
        let ghost done = lines@.take(i + 1);
        assert(views(done).drop_last() =~= views(lines@.take(i as int)));
        assert(views(done).last() == lines@[i as int]@);
        i = i + 1;
    }
    assert(lines@.take(i as int) =~= lines@);
    r
}

/// Searches `contents` as `config` asks and returns the text to print: the
/// matching lines in order, each followed by a newline.
pub fn run(config: &Config, contents: &str) -> (out: String)
    ensures
        out@ == rendered(search_spec(contents@, config.query@, config.case_insensitive)),
{
    let found = search(contents, config.query.as_str(), config.case_insensitive);
    render(&found)
}

} // verus!
