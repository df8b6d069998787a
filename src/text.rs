use vstd::prelude::*;
use vstd::string::{StrSliceExecFns, StringExecFns};

verus! {

/// The position of the last `c` in `s` before `end`, or -1.
pub open spec fn last_index_of(s: Seq<char>, c: char, end: int) -> int
    decreases end,
{
    if end <= 0 {
        -1
    } else if s[end - 1] == c {
        end - 1
    } else {
        last_index_of(s, c, end - 1)
    }
}

proof fn lemma_last_index_bounds(s: Seq<char>, c: char, end: int)
    requires
        0 <= end <= s.len(),
    ensures
        -1 <= last_index_of(s, c, end) < end,
    decreases end,
{
    if end > 0 && s[end - 1] != c {
        lemma_last_index_bounds(s, c, end - 1);
    }
}

fn find_last(s: &str, c: char, end: usize) -> (r: Option<usize>)
    requires
        end <= s@.len(),
    ensures
        match r {
            Some(i) => i as int == last_index_of(s@, c, end as int),
            None => last_index_of(s@, c, end as int) == -1,
        },
{
    let mut i: usize = end;
    while i > 0
        invariant
            i <= end <= s@.len(),
            last_index_of(s@, c, end as int) == last_index_of(s@, c, i as int),
        decreases i,
    {
        if s.get_char(i - 1) == c {
            return Some(i - 1);
        }
        i = i - 1;
    }
    None
}

/// The last part of a `/`-separated path, without the extension that
/// follows its last `.`.
pub open spec fn spec_file_name(s: Seq<char>) -> Seq<char> {
    let base = s.skip(last_index_of(s, '/', s.len() as int) + 1);
    let dot = last_index_of(base, '.', base.len() as int);
    if dot < 0 {
        base
    } else {
        base.take(dot)
    }
}

/// `s` shortened to `max_len - 3` characters and `...`, where it has more
/// than `max_len` characters.
pub open spec fn spec_ellipsize(s: Seq<char>, max_len: nat) -> Seq<char> {
    if s.len() > max_len {
        s.take(max_len - 3) + "..."@
    } else {
        s
    }
}

/// Helpers for paths and labels shown on screen.
pub trait StringExt {
    spec fn text(&self) -> Seq<char>;

    fn file_name(&self) -> (r: &str)
        ensures
            r@ == spec_file_name(self.text()),
    ;

    fn ellipsize(&self, max_len: usize) -> (r: String)
        requires
            self.text().len() > max_len ==> max_len >= 3,
        ensures
            r@ == spec_ellipsize(self.text(), max_len as nat),
    ;
}

impl StringExt for String {
    open spec fn text(&self) -> Seq<char> {
        self@
    }

    fn file_name(&self) -> (r: &str) {
        let s = self.as_str();
        let n = s.unicode_len();
        proof {
            lemma_last_index_bounds(s@, '/', n as int);
        }
        let start = match find_last(s, '/', n) {
            Some(i) => i + 1,
            None => 0,
        };
        let base = s.substring_char(start, n);
        let m = base.unicode_len();
        proof {
            assert(base@ =~= s@.skip(start as int));
            lemma_last_index_bounds(base@, '.', m as int);
        }
        match find_last(base, '.', m) {
            Some(d) => {
                let r = base.substring_char(0, d);
                assert(r@ =~= base@.take(d as int));
                r
            },
            None => base,
        }
    }

    fn ellipsize(&self, max_len: usize) -> (r: String) {
        let s = self.as_str();
        let n = s.unicode_len();
        if n > max_len {
            let head = s.substring_char(0, max_len - 3);
            let r = String::from_str(head).concat("...");
            proof {
                reveal_strlit("...");
                assert(head@ =~= s@.take(max_len - 3));
            }
            r
        } else {
            String::from_str(s)
        }
    }
}

} // verus!
