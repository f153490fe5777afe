//! The final component of a `/`-separated path, as `Path::file_name` finds
//! it, and the sanitised output name built from it.
use vstd::prelude::*;
use crate::text::chars_of;
use crate::text::string_of;

verus! {

/// The characters after the last `/` of `s` (all of `s` when it has none).
pub open spec fn tail_segment(s: Seq<char>) -> Seq<char>
    decreases s.len(),
{
    if s.len() == 0 || s.last() == '/' {
        Seq::empty()
    } else {
        tail_segment(s.drop_last()).push(s.last())
    }
}

/// A segment names a file or directory: it is neither empty, nor `.`, nor `..`.
pub open spec fn is_normal_segment(seg: Seq<char>) -> bool {
    seg.len() != 0 && seg != seq!['.'] && seg != seq!['.', '.']
}

/// The final component of path `s` (Unix rules of `Path::file_name`): the
/// last segment that is neither empty nor `.`; none when that segment is
/// `..` or when there is no such segment.
pub open spec fn final_component(s: Seq<char>) -> Option<Seq<char>>
    decreases s.len(),
{
    let seg = tail_segment(s);
    if seg.len() >= s.len() {
        if is_normal_segment(s) {
            Some(s)
        } else {
            None
        }
    } else if seg.len() == 0 || seg == seq!['.'] {
        proof {
            lemma_tail_segment(s);
        }
        final_component(s.take(s.len() - seg.len() - 1))
    } else if seg == seq!['.', '.'] {
        None
    } else {
        Some(seg)
    }
}

/// The name used when no usable file name is given.
pub open spec fn default_image_name() -> Seq<char> {
    seq!['g', 'e', 'n', 'e', 'r', 'a', 't', 'e', 'd', '_', 'i', 'm', 'a', 'g', 'e']
}

/// The output name for a requested file name: its final component, or the
/// default name when it has none.
pub open spec fn safe_name(filename: Seq<char>) -> Seq<char> {
    match final_component(filename) {
        Some(c) => c,
        None => default_image_name(),
    }
}

/// A name that stays inside the directory it is joined to: not empty, not
/// `.` or `..`, and without a `/`.
pub open spec fn is_plain_name(n: Seq<char>) -> bool {
    is_normal_segment(n) && !n.contains('/')
}

/// `tail_segment(s)` is the suffix of `s` after its last `/`.
pub proof fn lemma_tail_segment(s: Seq<char>)
    ensures
        tail_segment(s).len() <= s.len(),
        tail_segment(s) == s.subrange(s.len() - tail_segment(s).len(), s.len() as int),
        !tail_segment(s).contains('/'),
        tail_segment(s).len() < s.len() ==> s[s.len() - tail_segment(s).len() - 1] == '/',
    decreases s.len(),
{
    if s.len() != 0 && s.last() != '/' {
        let p = s.drop_last();
        lemma_tail_segment(p);
        let t = tail_segment(p);
        assert(tail_segment(s) == t.push(s.last()));
        assert(s.subrange(s.len() - t.len() - 1, s.len() as int) == s.subrange(
            p.len() - t.len(),
            p.len() as int,
        ).push(s.last()));
        if tail_segment(s).contains('/') {
            let k = choose|k: int| 0 <= k < tail_segment(s).len() && tail_segment(s)[k] == '/';
            if k < t.len() {
                assert(t[k] == '/');
            }
        }
    } else {
        assert(s.subrange(s.len() as int, s.len() as int) == Seq::<char>::empty());
    }
}

/// `c` occurs in `s` and ends at position `e`.
pub open spec fn occurs_ending_at(s: Seq<char>, c: Seq<char>, e: int) -> bool {
    0 <= e <= s.len() && c.len() <= e && c == s.subrange(e - c.len(), e)
}

/// The final component, when there is one, is a plain name that occurs in
/// the path, ending at some position `e`.
pub proof fn lemma_final_component_plain(s: Seq<char>)
    ensures
        final_component(s) is Some ==> is_plain_name(final_component(s)->0),
        final_component(s) is Some ==> exists|e: int|
            #[trigger] occurs_ending_at(s, final_component(s)->0, e),
    decreases s.len(),
{
    lemma_tail_segment(s);
    let seg = tail_segment(s);
    if seg.len() >= s.len() {
        assert(s.subrange(0, s.len() as int) =~= s);
        assert(seg =~= s);
        if is_normal_segment(s) {
            assert(s.subrange(0, s.len() as int) == s);
            assert(occurs_ending_at(s, s, s.len() as int));
            assert(final_component(s) == Some(s));
            assert(is_plain_name(s));
        } else {
            assert(final_component(s) is None);
        }
    } else if seg.len() == 0 || seg == seq!['.'] {
        let p = s.take(s.len() - seg.len() - 1);
        lemma_final_component_plain(p);
        assert(final_component(s) == final_component(p));
        if let Some(c) = final_component(p) {
            let e = choose|e: int| #[trigger] occurs_ending_at(p, c, e);
            assert(s.subrange(e - c.len(), e) =~= p.subrange(e - c.len(), e));
            assert(occurs_ending_at(s, c, e));
        }
    } else if seg != seq!['.', '.'] {
        let e = s.len() as int;
        assert(seg == s.subrange(e - seg.len(), e));
        assert(occurs_ending_at(s, seg, e));
        assert(final_component(s) == Some(seg));
        assert(is_plain_name(seg));
    } else {
        assert(final_component(s) is None);
    }
}

/// The sanitised output name never leaves the target directory: it is not
/// empty, not `.` or `..`, and holds no `/`; it is the final component of
/// the requested name, or the default name.
pub proof fn lemma_safe_name_is_plain(filename: Seq<char>)
    ensures
        is_plain_name(safe_name(filename)),
        safe_name(filename) == default_image_name() || final_component(filename) == Some(
            safe_name(filename),
        ),
{
    lemma_final_component_plain(filename);
    if final_component(filename) is None {
        let d = default_image_name();
        assert(!d.contains('/')) by {
            if d.contains('/') {
                let k = choose|k: int| 0 <= k < d.len() && d[k] == '/';
            }
        }
        assert(d != seq!['.']) by {
            assert(d.len() != 1);
        }
        assert(d != seq!['.', '.']) by {
            assert(d.len() != 2);
        }
    }
}

/// The final component of the path held in `cs`.
pub fn final_component_exec(cs: &Vec<char>) -> (r: Option<Vec<char>>)
    ensures
        r.deep_view() == final_component(cs@),
{
    let mut end: usize = cs.len();
    assert(cs@.take(end as int) =~= cs@);
    loop
        invariant
            end <= cs.len(),
            final_component(cs@.take(end as int)) == final_component(cs@),
        decreases end,
    {
        let ghost s = cs@.take(end as int);
        let mut start: usize = end;
        while start > 0 && cs[start - 1] != '/'
            invariant
                start <= end <= cs.len(),
                forall|k: int| start <= k < end ==> cs@[k] != '/',
            decreases start,
        {
            start = start - 1;
        }
        let mut seg: Vec<char> = Vec::new();
        let mut i: usize = start;
        while i < end
            invariant
                start <= i <= end <= cs.len(),
                seg@ == cs@.subrange(start as int, i as int),
            decreases end - i,
        {
            seg.push(cs[i]);
            assert(cs@.subrange(start as int, i + 1) == cs@.subrange(start as int, i as int).push(cs@[i as int]));
            i = i + 1;
        }
        proof {
            lemma_tail_segment(s);
            lemma_tail_is(s, start as int);
        }
        let n = seg.len();
        let empty_or_dot = n == 0 || (n == 1 && seg[0] == '.');
        let dot_dot = n == 2 && seg[0] == '.' && seg[1] == '.';
        proof {
            let one = seq!['.'];
            let two = seq!['.', '.'];
            assert(one.len() == 1 && one[0] == '.');
            assert(two.len() == 2 && two[0] == '.' && two[1] == '.');
            if n == 1 && seg[0] == '.' {
                assert(seg@ =~= one);
            }
            if dot_dot {
                assert(seg@ =~= two);
            }
            if seg@ == one {
                assert(n == 1 && seg@[0] == '.');
            }
            if seg@ == two {
                assert(n == 2 && seg@[0] == '.' && seg@[1] == '.');
            }
            assert(empty_or_dot == (seg@.len() == 0 || seg@ == one));
            assert(dot_dot == (seg@ == two));
            assert(seg@ == tail_segment(s));
            if start == 0 {
                assert(s.subrange(0, s.len() as int) =~= s);
                assert(seg@ =~= s);
            }
        }
        if start == 0 {
            if empty_or_dot || dot_dot {
                return None;
            }
            return Some(seg);
        }
        if empty_or_dot {
            proof {
                assert(s.take(s.len() - seg@.len() - 1) == cs@.take(start - 1));
            }
            end = start - 1;
        } else if dot_dot {
            return None;
        } else {
            return Some(seg);
        }
    }
}

proof fn lemma_tail_is(s: Seq<char>, start: int)
    requires
        0 <= start <= s.len(),
        forall|k: int| start <= k < s.len() ==> s[k] != '/',
        start > 0 ==> s[start - 1] == '/',
    ensures
        tail_segment(s) == s.subrange(start, s.len() as int),
    decreases s.len(),
{
    if start < s.len() {
        lemma_tail_is(s.drop_last(), start);
        assert(s.subrange(start, s.len() as int) == s.drop_last().subrange(
            start,
            s.len() - 1,
        ).push(s.last()));
    }
}

/// The output name for the requested `filename`: its final component, so
/// that no directory part of it survives, or `generated_image`.
pub fn sanitize_filename(filename: &str) -> (r: String)
    ensures
        r@ == safe_name(filename@),
{
    let cs = chars_of(filename);
    match final_component_exec(&cs) {
        Some(c) => string_of(c.as_slice()),
        None => {
            let r = String::from_str("generated_image");
            proof {
                reveal_strlit("generated_image");
            }
            assert(r@ == default_image_name());
            r
        },
    }
}

} // verus!
