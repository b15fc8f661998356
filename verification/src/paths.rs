//! Pure path-string manipulation.
//!
//! Paths are modelled as strings whose components are separated by `/`.
//! The helpers here compute the parent directory, the final component and
//! the result of descending into a child entry, each pinned down by a spec
//! function over the character sequence.

use vstd::prelude::*;

verus! {

/// The path separator character.
pub open spec fn sep() -> char {
    '/'
}

/// The path obtained by descending from `base` into the entry `name`.
pub open spec fn join_spec(base: Seq<char>, name: Seq<char>) -> Seq<char> {
    base + seq![sep()] + name
}

/// Append `name` under `base`, separated by `/`.
pub fn join_under(base: &str, name: &str) -> (r: String)
    ensures
        r@ == join_spec(base@, name@),
{
    let mut r = base.to_owned();
    r.append("/");
    r.append(name);
    proof {
        reveal_strlit("/");
        assert(r@ =~= join_spec(base@, name@));
    }
    r
}

/// Index of the last separator in `p`, or `-1` when `p` holds none.
pub open spec fn last_sep_index(p: Seq<char>) -> int
    decreases p.len(),
{
    if p.len() == 0 {
        -1
    } else if p.last() == sep() {
        p.len() - 1
    } else {
        last_sep_index(p.drop_last())
    }
}

/// The last separator index lies below `p.len()`, marks a separator, and no
/// separator follows it.
pub proof fn lemma_last_sep_index(p: Seq<char>)
    ensures
        -1 <= last_sep_index(p) < p.len(),
        last_sep_index(p) >= 0 ==> p[last_sep_index(p)] == sep(),
        forall|j: int| last_sep_index(p) < j < p.len() ==> p[j] != sep(),
    decreases p.len(),
{
    if p.len() > 0 && p.last() != sep() {
        lemma_last_sep_index(p.drop_last());
        assert forall|j: int| last_sep_index(p) < j < p.len() implies p[j] != sep() by {
            if j < p.len() - 1 {
                assert(p.drop_last()[j] == p[j]);
            }
        }
    }
}

/// The parent directory of `p`: everything before the last separator, the
/// root `/` when the last separator starts the path, and nothing when `p`
/// holds no separator or is the root itself.
pub open spec fn parent_spec(p: Seq<char>) -> Option<Seq<char>> {
    let i = last_sep_index(p);
    if i < 0 {
        None
    } else if i == 0 {
        if p.len() == 1 {
            None
        } else {
            Some(seq![sep()])
        }
    } else {
        Some(p.take(i))
    }
}

/// The final component of `p`: everything after the last separator, unless
/// that is empty, `.` or `..`.
pub open spec fn final_component_spec(p: Seq<char>) -> Option<Seq<char>> {
    let c = p.skip(last_sep_index(p) + 1);
    if c.len() == 0 || c == seq!['.'] || c == seq!['.', '.'] {
        None
    } else {
        Some(c)
    }
}

/// Position of the last `/` in `p`, if any.
fn find_last_sep(p: &str) -> (r: Option<usize>)
    ensures
        match r {
            Some(i) => i == last_sep_index(p@),
            None => last_sep_index(p@) == -1,
        },
{
    let n = p.unicode_len();
    let mut i = n;
    proof {
        assert(p@.take(n as int) =~= p@);
    }
    while i > 0
        invariant
            i <= n,
            n == p@.len(),
            last_sep_index(p@) == last_sep_index(p@.take(i as int)),
        decreases i,
    {
        let c = p.get_char(i - 1);
        proof {
            assert(p@.take(i as int).last() == p@[i - 1]);
        }
        if c == '/' {
            return Some(i - 1);
        }
        proof {
            assert(p@.take(i as int).drop_last() =~= p@.take(i - 1));
        }
        i = i - 1;
    }
    None
}

/// Parent directory of `p`, following `parent_spec`.
pub fn parent_dir(p: &str) -> (r: Option<String>)
    ensures
        match r {
            Some(q) => parent_spec(p@) == Some(q@),
            None => parent_spec(p@) is None,
        },
{
    proof {
        lemma_last_sep_index(p@);
    }
    match find_last_sep(p) {
        None => None,
        Some(i) => {
            if i == 0 {
                if p.unicode_len() == 1 {
                    None
                } else {
                    let r = "/".to_owned();
                    proof {
                        reveal_strlit("/");
                        assert(r@ =~= seq![sep()]);
                    }
                    Some(r)
                }
            } else {
                Some(p.substring_char(0, i).to_owned())
            }
        },
    }
}

/// Final component of `p`, following `final_component_spec`.
pub fn final_component(p: &str) -> (r: Option<String>)
    ensures
        match r {
            Some(q) => final_component_spec(p@) == Some(q@),
            None => final_component_spec(p@) is None,
        },
{
    proof {
        lemma_last_sep_index(p@);
    }
    let n = p.unicode_len();
    let start: usize = match find_last_sep(p) {
        None => 0,
        Some(i) => i + 1,
    };
    let c = p.substring_char(start, n);
    let clen = c.unicode_len();
    proof {
        assert(c@ =~= p@.skip(last_sep_index(p@) + 1));
    }
    if clen == 0 {
        return None;
    }
    if clen == 1 && c.get_char(0) == '.' {
        proof {
            assert(c@ =~= seq!['.']);
        }
        return None;
    }
    if clen == 2 && c.get_char(0) == '.' && c.get_char(1) == '.' {
        proof {
            assert(c@ =~= seq!['.', '.']);
        }
        return None;
    }
    proof {
        assert(c@ != seq!['.'] && c@ != seq!['.', '.']) by {
            if c@ == seq!['.'] {
                assert(c@.len() == 1 && c@[0] == '.');
            }
            if c@ == seq!['.', '.'] {
                assert(c@.len() == 2 && c@[0] == '.' && c@[1] == '.');
            }
        }
    }
    Some(c.to_owned())
}

} // verus!
