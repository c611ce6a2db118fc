//! Path strings. Paths are modelled as plain strings whose components are
//! separated by `/`; joining and taking the parent are verified functions
//! over that model.
use vstd::prelude::*;

verus! {

/// `base` and `child` joined by a single separator.
pub open spec fn join_v(base: Seq<char>, child: Seq<char>) -> Seq<char> {
    base + "/"@ + child
}

/// Everything before the last separator, or nothing when the path has no
/// separator at all.
pub open spec fn parent_v(p: Seq<char>) -> Option<Seq<char>>
    decreases p.len(),
{
    if p.len() == 0 {
        None
    } else if p[p.len() - 1] == '/' {
        Some(p.take(p.len() - 1))
    } else {
        parent_v(p.take(p.len() - 1))
    }
}

/// The parent of a join whose child component holds no separator is the
/// base the join started from.
pub proof fn lemma_parent_join(a: Seq<char>, b: Seq<char>)
    requires
        b.len() > 0,
        forall|i: int| 0 <= i < b.len() ==> b[i] != '/',
    ensures
        parent_v(join_v(a, b)) == Some(a),
    decreases b.len(),
{
    reveal_strlit("/");
    let p = join_v(a, b);
    assert(p[p.len() - 1] == b[b.len() - 1]);
    if b.len() == 1 {
        let q = p.take(p.len() - 1);
        assert(q =~= a + "/"@);
        assert(q[q.len() - 1] == '/');
        assert(q.take(q.len() - 1) =~= a);
    } else {
        let b2 = b.take(b.len() - 1);
        assert(p.take(p.len() - 1) =~= join_v(a, b2));
        lemma_parent_join(a, b2);
    }
}

/// Joins two path components with a separator.
pub fn join(base: &str, child: &str) -> (r: String)
    ensures
        r@ == join_v(base@, child@),
{
    let mut s = String::new();
    s.append(base);
    s.append("/");
    s.append(child);
    s
}

/// The parent directory of `p`: the prefix before the last separator.
pub fn parent_of(p: &str) -> (r: Option<String>)
    ensures
        match r {
            Some(q) => parent_v(p@) == Some(q@),
            None => parent_v(p@) is None,
        },
{
    let n = p.unicode_len();
    let mut i: usize = n;
    proof {
        assert(p@.take(n as int) =~= p@);
    }
    while i > 0
        invariant
            i <= n,
            n == p@.len(),
            parent_v(p@) == parent_v(p@.take(i as int)),
        decreases i,
    {
        let c = p.get_char(i - 1);
        if c == '/' {
            let q = p.substring_char(0, i - 1);
            proof {
                assert(p@.take(i as int).take(i - 1) =~= p@.subrange(0, i - 1));
            }
            return Some(String::from_str(q));
        }
        proof {
            assert(p@.take(i as int).take(i - 1) =~= p@.take(i - 1));
        }
        i = i - 1;
    }
    None
}

} // verus!
