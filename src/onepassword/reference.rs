//! The grammar of `op://` references.
use vstd::prelude::*;

verus! {

/// An ASCII letter or digit.
pub open spec fn is_ascii_alnum(c: char) -> bool {
    ('0' <= c && c <= '9') || ('a' <= c && c <= 'z') || ('A' <= c && c <= 'Z')
}

/// A path segment of a reference: one or more ASCII letters or digits.
pub open spec fn is_segment(s: Seq<char>) -> bool {
    s.len() > 0 && forall|i: int| 0 <= i < s.len() ==> is_ascii_alnum(#[trigger] s[i])
}

/// The scheme and authority marker that every reference starts with.
pub open spec fn reference_prefix() -> Seq<char> {
    seq!['o', 'p', ':', '/', '/']
}

/// The pieces of a text between its slashes, in order; a text without a
/// slash is one piece.
pub open spec fn split_on_slash(t: Seq<char>) -> Seq<Seq<char>>
    decreases t.len(),
{
    if t.len() == 0 {
        seq![Seq::empty()]
    } else {
        let pieces = split_on_slash(t.drop_last());
        if t.last() == '/' {
            pieces.push(Seq::empty())
        } else {
            pieces.update(pieces.len() - 1, pieces.last().push(t.last()))
        }
    }
}

/// Pieces joined with a slash between each two.
pub open spec fn join_with_slash(pieces: Seq<Seq<char>>) -> Seq<char>
    decreases pieces.len(),
{
    if pieces.len() <= 1 {
        if pieces.len() == 0 {
            Seq::empty()
        } else {
            pieces[0]
        }
    } else {
        join_with_slash(pieces.drop_last()) + seq!['/'] + pieces.last()
    }
}

/// The reference text that names the given segments.
pub open spec fn reference_text(segments: Seq<Seq<char>>) -> Seq<char> {
    reference_prefix() + join_with_slash(segments)
}

/// The segments that a text names when it is a reference with `count`
/// segments: it starts with `op://`, and what follows is `count` segments
/// separated by slashes.
pub open spec fn parsed_reference(text: Seq<char>, count: nat) -> Option<Seq<Seq<char>>> {
    if text.len() >= 5 && text.take(5) == reference_prefix() {
        let pieces = split_on_slash(text.skip(5));
        if pieces.len() == count && forall|i: int| 0 <= i < pieces.len() ==> is_segment(
            #[trigger] pieces[i],
        ) {
            Some(pieces)
        } else {
            None
        }
    } else {
        None
    }
}

proof fn lemma_split_nonempty(t: Seq<char>)
    ensures
        split_on_slash(t).len() >= 1,
    decreases t.len(),
{
    if t.len() > 0 {
        lemma_split_nonempty(t.drop_last());
    }
}

/// Appending text without a slash extends the last piece.
proof fn lemma_split_append_plain(x: Seq<char>, y: Seq<char>)
    requires
        forall|i: int| 0 <= i < y.len() ==> y[i] != '/',
    ensures
        split_on_slash(x + y) == split_on_slash(x).update(
            split_on_slash(x).len() - 1,
            split_on_slash(x).last() + y,
        ),
    decreases y.len(),
{
    lemma_split_nonempty(x);
    let px = split_on_slash(x);
    if y.len() == 0 {
        assert(x + y == x);
        assert(px.last() + y == px.last());
        assert(px.update(px.len() - 1, px.last()) =~= px);
    } else {
        let init = y.drop_last();
        assert forall|i: int| 0 <= i < init.len() implies init[i] != '/' by {
            assert(init[i] == y[i]);
        }
        lemma_split_append_plain(x, init);
        let t = x + y;
        assert(t.drop_last() == x + init);
        assert(t.last() == y.last());
        assert(y.last() != '/');
        assert(px.last() + init.push(y.last()) == (px.last() + init).push(y.last()));
        assert(init.push(y.last()) == y);
        assert(split_on_slash(t) =~= px.update(px.len() - 1, px.last() + y));
    }
}

/// Splitting segments joined with slashes gives the segments back, when no
/// segment holds a slash.
proof fn lemma_split_join(segments: Seq<Seq<char>>)
    requires
        segments.len() >= 1,
        forall|k: int, i: int|
            0 <= k < segments.len() && 0 <= i < segments[k].len() ==> #[trigger] segments[k][i]
                != '/',
    ensures
        split_on_slash(join_with_slash(segments)) == segments,
    decreases segments.len(),
{
    let last = segments.last();
    assert forall|i: int| 0 <= i < last.len() implies last[i] != '/' by {
        assert(last[i] == segments[segments.len() - 1][i]);
    }
    if segments.len() == 1 {
        let e = Seq::<char>::empty();
        lemma_split_append_plain(e, last);
        assert(e + last == last);
        assert(split_on_slash(e) == seq![e]);
        assert(seq![e].update(0, e + last) =~= segments);
    } else {
        let init = segments.drop_last();
        assert forall|k: int, i: int| 0 <= k < init.len() && 0 <= i < init[k].len() implies #[trigger] init[k][i]
            != '/' by {
            assert(init[k] == segments[k]);
        }
        lemma_split_join(init);
        let x = join_with_slash(init) + seq!['/'];
        assert(x.drop_last() == join_with_slash(init));
        assert(split_on_slash(x) == init.push(Seq::<char>::empty()));
        lemma_split_append_plain(x, last);
        assert(Seq::<char>::empty() + last == last);
        assert(init.push(Seq::<char>::empty()).update(init.len() as int, last) =~= segments);
        assert(join_with_slash(segments) == x + last);
    }
}

/// A reference read back from its text names the same segments.
pub proof fn lemma_reference_round_trip(segments: Seq<Seq<char>>)
    requires
        segments.len() >= 1,
        forall|k: int| 0 <= k < segments.len() ==> is_segment(#[trigger] segments[k]),
    ensures
        parsed_reference(reference_text(segments), segments.len()) == Some(segments),
{
    assert forall|k: int, i: int| 0 <= k < segments.len() && 0 <= i < segments[k].len() implies #[trigger] segments[k][i]
        != '/' by {
        assert(is_segment(segments[k]));
        assert(is_ascii_alnum(segments[k][i]));
    }
    lemma_split_join(segments);
    let text = reference_text(segments);
    assert(text.take(5) =~= reference_prefix());
    assert(text.skip(5) =~= join_with_slash(segments));
}

fn is_alnum_char(c: char) -> (r: bool)
    ensures
        r == is_ascii_alnum(c),
{
    ('0' <= c && c <= '9') || ('a' <= c && c <= 'z') || ('A' <= c && c <= 'Z')
}

pub(crate) fn is_segment_text(s: &str) -> (r: bool)
    ensures
        r == is_segment(s@),
{
    let n = s.unicode_len();
    if n == 0 {
        return false;
    }
    let mut i: usize = 0;
    while i < n
        invariant
            n == s@.len(),
            i <= n,
            forall|k: int| 0 <= k < i ==> is_ascii_alnum(#[trigger] s@[k]),
        decreases n - i,
    {
        if !is_alnum_char(s.get_char(i)) {
            return false;
        }
        i = i + 1;
    }
    true
}

/// The segments of a reference with `count` segments, or `None` where the
/// text is no such reference.
pub(crate) fn reference_segments(s: &str, count: usize) -> (r: Option<Vec<String>>)
    ensures
        r matches Some(v) ==> parsed_reference(s@, count as nat) == Some(
            v@.map_values(|p: String| p@),
        ),
        r is None ==> parsed_reference(s@, count as nat) is None,
{
    let n = s.unicode_len();
    if n < 5 || s.get_char(0) != 'o' || s.get_char(1) != 'p' || s.get_char(2) != ':'
        || s.get_char(3) != '/' || s.get_char(4) != '/' {
        proof {
            if n >= 5 {
                assert(s@.take(5)[0] == s@[0]);
                assert(s@.take(5)[1] == s@[1]);
                assert(s@.take(5)[2] == s@[2]);
                assert(s@.take(5)[3] == s@[3]);
                assert(s@.take(5)[4] == s@[4]);
            }
        }
        return None;
    }
    assert(s@.take(5) == reference_prefix());
    let ghost rest = s@.skip(5);
    let mut pieces: Vec<String> = Vec::new();
    let mut start: usize = 5;
    let mut i: usize = 5;
    assert(rest.take(0) == Seq::<char>::empty());
    assert(s@.subrange(5, 5) == Seq::<char>::empty());
    while i < n
        invariant
            n == s@.len(),
            5 <= start <= i <= n,
            rest == s@.skip(5),
            split_on_slash(rest.take(i - 5)) == pieces@.map_values(|p: String| p@).push(
                s@.subrange(start as int, i as int),
            ),
        decreases n - i,
    {
        let c = s.get_char(i);
        let ghost before = rest.take(i - 5);
        let ghost after = rest.take(i + 1 - 5);
        assert(after.drop_last() == before);
        assert(after.last() == c);
        if c == '/' {
            let piece = String::from_str(s.substring_char(start, i));
            let ghost earlier = pieces@;
            pieces.push(piece);
            assert(pieces@.map_values(|p: String| p@) == earlier.map_values(|p: String| p@).push(
                piece@,
            ));
            start = i + 1;
            assert(s@.subrange(start as int, start as int) == Seq::<char>::empty());
        } else {
            assert(s@.subrange(start as int, i + 1) == s@.subrange(start as int, i as int).push(c));
        }
        i = i + 1;
    }
    let last = String::from_str(s.substring_char(start, n));
    pieces.push(last);
    assert(rest.take(n - 5) == rest);
    let ghost views = pieces@.map_values(|p: String| p@);
    assert(views == split_on_slash(rest));
    if pieces.len() != count {
        return None;
    }
    let mut j: usize = 0;
    while j < pieces.len()
        invariant
            views == pieces@.map_values(|p: String| p@),
            views == split_on_slash(s@.skip(5)),
            j <= pieces@.len(),
            forall|k: int| 0 <= k < j ==> is_segment(#[trigger] views[k]),
        decreases pieces@.len() - j,
    {
        if !is_segment_text(pieces[j].as_str()) {
            assert(views[j as int] == pieces@[j as int]@);
            assert(!is_segment(split_on_slash(s@.skip(5))[j as int]));
            return None;
        }
        j = j + 1;
    }
    Some(pieces)
}

} // verus!
