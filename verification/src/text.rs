//! Splitting and joining of text at a separator character.

use vstd::prelude::*;

verus! {

/// The pieces of `s` that lie between the occurrences of `sep`, in order.
/// There is always at least one piece; a piece may be empty.
pub open spec fn split(s: Seq<char>, sep: char) -> Seq<Seq<char>>
    decreases s.len(),
{
    if s.len() == 0 {
        seq![Seq::<char>::empty()]
    } else {
        let init = split(s.drop_last(), sep);
        if s.last() == sep {
            init.push(Seq::<char>::empty())
        } else {
            init.update(init.len() - 1, init.last().push(s.last()))
        }
    }
}

/// The pieces of `parts` in order, with one `sep` between neighbours.
pub open spec fn join(parts: Seq<Seq<char>>, sep: char) -> Seq<char>
    decreases parts.len(),
{
    if parts.len() == 0 {
        Seq::<char>::empty()
    } else if parts.len() == 1 {
        parts[0]
    } else {
        join(parts.drop_last(), sep).push(sep) + parts.last()
    }
}

/// `c` does not occur in `s`.
pub open spec fn free_of(s: Seq<char>, c: char) -> bool {
    forall|i: int| 0 <= i < s.len() ==> s[i] != c
}

/// `c` occurs in none of `parts`.
pub open spec fn all_free_of(parts: Seq<Seq<char>>, c: char) -> bool {
    forall|i: int| 0 <= i < parts.len() ==> free_of(#[trigger] parts[i], c)
}

/// Splitting yields at least one piece, and no piece holds the separator.
pub proof fn lemma_split_pieces(s: Seq<char>, sep: char)
    ensures
        split(s, sep).len() >= 1,
        all_free_of(split(s, sep), sep),
    decreases s.len(),
{
    if s.len() > 0 {
        lemma_split_pieces(s.drop_last(), sep);
    }
}

/// Appending text without a separator lengthens the last piece.
pub proof fn lemma_split_append(a: Seq<char>, b: Seq<char>, sep: char)
    requires
        free_of(b, sep),
    ensures
        split(a + b, sep) == split(a, sep).update(
            split(a, sep).len() - 1,
            split(a, sep).last() + b,
        ),
    decreases b.len(),
{
    lemma_split_pieces(a, sep);
    let pieces = split(a, sep);
    if b.len() == 0 {
        assert(a + b =~= a);
        assert(pieces.last() + b =~= pieces.last());
        assert(pieces.update(pieces.len() - 1, pieces.last()) =~= pieces);
    } else {
        let b0 = b.drop_last();
        lemma_split_append(a, b0, sep);
        assert((a + b).drop_last() =~= a + b0);
        assert((a + b).last() == b.last());
        let init = split(a + b0, sep);
        assert(init.last().push(b.last()) =~= pieces.last() + b);
        assert(init.update(init.len() - 1, init.last().push(b.last())) =~= pieces.update(
            pieces.len() - 1,
            pieces.last() + b,
        ));
    }
}

/// Joining pieces and splitting the text again gives the pieces back,
/// as long as there is a piece and none holds the separator.
pub proof fn lemma_split_join(parts: Seq<Seq<char>>, sep: char)
    requires
        parts.len() >= 1,
        all_free_of(parts, sep),
    ensures
        split(join(parts, sep), sep) == parts,
    decreases parts.len(),
{
    if parts.len() == 1 {
        let only = parts[0];
        assert(Seq::<char>::empty() + only =~= only);
        lemma_split_append(Seq::<char>::empty(), only, sep);
        assert(split(Seq::<char>::empty(), sep) =~= seq![Seq::<char>::empty()]);
        assert(split(only, sep) =~= parts);
    } else {
        let init = parts.drop_last();
        assert(all_free_of(init, sep)) by {
            assert forall|i: int| 0 <= i < init.len() implies free_of(#[trigger] init[i], sep) by {
                assert(init[i] == parts[i]);
            }
        }
        lemma_split_join(init, sep);
        let head = join(init, sep).push(sep);
        assert(head.drop_last() =~= join(init, sep));
        assert(split(head, sep) == init.push(Seq::<char>::empty()));
        lemma_split_append(head, parts.last(), sep);
        assert(Seq::<char>::empty() + parts.last() =~= parts.last());
        assert(split(head + parts.last(), sep) =~= parts);
    }
}

/// Lengthening the last piece lengthens the joined text by as much.
pub proof fn lemma_join_grow_last(parts: Seq<Seq<char>>, tail: Seq<char>, sep: char)
    requires
        parts.len() >= 1,
    ensures
        join(parts.update(parts.len() - 1, parts.last() + tail), sep) == join(parts, sep) + tail,
{
    let grown = parts.update(parts.len() - 1, parts.last() + tail);
    if parts.len() == 1 {
    } else {
        assert(grown.drop_last() =~= parts.drop_last());
        assert(join(grown, sep) =~= join(parts, sep) + tail);
    }
}

/// Splitting a text and joining the pieces gives the text back.
pub proof fn lemma_join_split(s: Seq<char>, sep: char)
    ensures
        join(split(s, sep), sep) == s,
    decreases s.len(),
{
    if s.len() == 0 {
        assert(join(split(s, sep), sep) =~= s);
    } else {
        let init = split(s.drop_last(), sep);
        lemma_split_pieces(s.drop_last(), sep);
        lemma_join_split(s.drop_last(), sep);
        if s.last() == sep {
            let pieces = init.push(Seq::<char>::empty());
            assert(pieces.drop_last() =~= init);
            assert(join(pieces, sep) =~= s.drop_last().push(sep));
            assert(s.drop_last().push(sep) =~= s);
        } else {
            lemma_join_grow_last(init, seq![s.last()], sep);
            assert(init.last() + seq![s.last()] =~= init.last().push(s.last()));
            assert(s.drop_last() + seq![s.last()] =~= s);
        }
    }
}

/// Cuts `s` at every `sep`.
pub fn split_str(s: &str, sep: char) -> (parts: Vec<String>)
    ensures
        parts.deep_view() == split(s@, sep),
{
    let n: usize = s.unicode_len();
    let mut parts: Vec<String> = Vec::new();
    let mut start: usize = 0;
    let mut i: usize = 0;
    assert(s@.subrange(0, 0) =~= Seq::<char>::empty());
    assert(parts.deep_view().push(s@.subrange(0, 0)) =~= split(s@.subrange(0, 0), sep));
    while i < n
        invariant
            n == s@.len(),
            start <= i <= n,
            parts.deep_view().push(s@.subrange(start as int, i as int)) == split(
                s@.subrange(0, i as int),
                sep,
            ),
        decreases n - i,
    {
        let c = s.get_char(i);
        let ghost before = s@.subrange(0, i as int);
        let ghost after = s@.subrange(0, i + 1);
        let ghost done = parts.deep_view();
        assert(after.drop_last() =~= before);
        assert(after.last() == c);
        if c == sep {
            let piece = s.substring_char(start, i).to_owned();
            parts.push(piece);
            assert(parts.deep_view() =~= done.push(piece@));
            start = i + 1;
            assert(s@.subrange(start as int, i + 1) =~= Seq::<char>::empty());
        } else {
            assert(s@.subrange(start as int, i + 1) =~= s@.subrange(start as int, i as int).push(c));
            assert(done.push(s@.subrange(start as int, i as int)).update(
                done.len() as int,
                s@.subrange(start as int, i + 1),
            ) =~= done.push(s@.subrange(start as int, i + 1)));
        }
        i = i + 1;
    }
    assert(s@.subrange(0, n as int) =~= s@);
    let ghost done = parts.deep_view();
    let last = s.substring_char(start, n).to_owned();
    parts.push(last);
    assert(parts.deep_view() =~= done.push(last@));
    parts
}

/// The pieces of `parts` in order, with the text `sep` between
/// neighbours.
pub open spec fn join_with(parts: Seq<Seq<char>>, sep: Seq<char>) -> Seq<char>
    decreases parts.len(),
{
    if parts.len() == 0 {
        Seq::<char>::empty()
    } else if parts.len() == 1 {
        parts[0]
    } else {
        join_with(parts.drop_last(), sep) + sep + parts.last()
    }
}

/// Joining with a text of one character is joining with the character.
pub proof fn lemma_join_with_char(parts: Seq<Seq<char>>, sep: char)
    ensures
        join_with(parts, seq![sep]) == join(parts, sep),
    decreases parts.len(),
{
    if parts.len() > 1 {
        lemma_join_with_char(parts.drop_last(), sep);
        assert(join(parts.drop_last(), sep) + seq![sep] =~= join(parts.drop_last(), sep).push(sep));
    }
}

/// Puts `sep` between the pieces and returns the whole text.
pub fn join_strs(parts: &Vec<String>, sep: &str) -> (joined: String)
    ensures
        joined@ == join_with(parts.deep_view(), sep@),
{
    let mut joined = String::new();
    let mut i: usize = 0;
    assert(parts.deep_view().subrange(0, 0) =~= Seq::<Seq<char>>::empty());
    while i < parts.len()
        invariant
            i <= parts.len(),
            joined@ == join_with(parts.deep_view().subrange(0, i as int), sep@),
        decreases parts.len() - i,
    {
        let ghost done = parts.deep_view().subrange(0, i as int);
        let ghost next = parts.deep_view().subrange(0, i + 1);
        assert(next.drop_last() =~= done);
        assert(next.last() == parts[i as int]@);
        if i > 0 {
            joined.append(sep);
        } else {
            assert(Seq::<char>::empty() + parts[i as int]@ =~= parts[i as int]@);
        }
        joined.append(parts[i].as_str());
        i = i + 1;
    }
    assert(parts.deep_view().subrange(0, parts.len() as int) =~= parts.deep_view());
    joined
}

/// Whether two texts hold the same characters.
pub fn same_text(a: &str, b: &str) -> (same: bool)
    ensures
        same == (a@ == b@),
{
    let x = a.as_bytes();
    let y = b.as_bytes();
    proof {
        vstd::utf8::encode_utf8_decode_utf8(a@);
        vstd::utf8::encode_utf8_decode_utf8(b@);
    }
    if x.len() != y.len() {
        return false;
    }
    let mut i: usize = 0;
    while i < x.len()
        invariant
            i <= x.len(),
            x.len() == y.len(),
            a@ == b@ ==> x@ == y@,
            forall|j: int| 0 <= j < i ==> x@[j] == y@[j],
        decreases x.len() - i,
    {
        if x[i] != y[i] {
            return false;
        }
        i = i + 1;
    }
    assert(x@ =~= y@);
    true
}

} // verus!
