//! Text encodings: the space-joined tag string and SQL literal quoting.

use vstd::prelude::*;
use vstd::string::*;

verus! {

/// The parts written one after another with `sep` between neighbours.
pub open spec fn join_with(parts: Seq<Seq<char>>, sep: Seq<char>) -> Seq<char>
    decreases parts.len(),
{
    if parts.len() == 0 {
        Seq::empty()
    } else if parts.len() == 1 {
        parts[0]
    } else {
        join_with(parts.drop_last(), sep) + sep + parts.last()
    }
}

/// The stored form of a tag list: the tags separated by single spaces.
pub open spec fn join_spaces(tags: Seq<Seq<char>>) -> Seq<char> {
    join_with(tags, seq![' '])
}

/// The pieces of `s` between its spaces, empty pieces included: a text with
/// `n` spaces has `n + 1` pieces.
pub open spec fn split_spaces(s: Seq<char>) -> Seq<Seq<char>>
    decreases s.len(),
{
    if s.len() == 0 {
        seq![Seq::empty()]
    } else {
        let before = split_spaces(s.drop_last());
        if s.last() == ' ' {
            before.push(Seq::empty())
        } else {
            before.drop_last().push(before.last().push(s.last()))
        }
    }
}

/// No character of `s` is a space.
pub open spec fn space_free(s: Seq<char>) -> bool {
    forall|i: int| 0 <= i < s.len() ==> s[i] != ' '
}

/// `s` with every single quote doubled.
pub open spec fn escape_quotes(s: Seq<char>) -> Seq<char>
    decreases s.len(),
{
    if s.len() == 0 {
        Seq::empty()
    } else if s.last() == '\'' {
        escape_quotes(s.drop_last()).push('\'').push('\'')
    } else {
        escape_quotes(s.drop_last()).push(s.last())
    }
}

/// `s` as an SQL string literal.
pub open spec fn quoted(s: Seq<char>) -> Seq<char> {
    seq!['\''] + escape_quotes(s) + seq!['\'']
}

pub proof fn lemma_split_nonempty(s: Seq<char>)
    ensures
        split_spaces(s).len() >= 1,
    decreases s.len(),
{
    if s.len() > 0 {
        lemma_split_nonempty(s.drop_last());
    }
}

/// Appending a space-free text extends the last piece and leaves the others.
pub proof fn lemma_split_append_word(s: Seq<char>, w: Seq<char>)
    requires
        space_free(w),
    ensures
        split_spaces(s).len() >= 1,
        split_spaces(s + w) == split_spaces(s).drop_last().push(split_spaces(s).last() + w),
    decreases w.len(),
{
    lemma_split_nonempty(s);
    let p = split_spaces(s);
    if w.len() == 0 {
        assert(s + w =~= s);
        assert(p.last() + w =~= p.last());
        assert(p.drop_last().push(p.last()) =~= p);
    } else {
        let w0 = w.drop_last();
        assert(space_free(w0));
        lemma_split_append_word(s, w0);
        assert((s + w).drop_last() =~= s + w0);
        assert((s + w).last() == w.last());
        let q = split_spaces(s + w0);
        assert(q.last() == p.last() + w0);
        assert(q.drop_last() =~= p.drop_last());
        assert((p.last() + w0).push(w.last()) =~= p.last() + w);
    }
}

/// Splitting the stored form of a non-empty list of space-free tags gives the
/// list back.
pub proof fn law_tags_round_trip(tags: Seq<Seq<char>>)
    requires
        tags.len() >= 1,
        forall|i: int| 0 <= i < tags.len() ==> space_free(#[trigger] tags[i]),
    ensures
        split_spaces(join_spaces(tags)) == tags,
    decreases tags.len(),
{
    let e = Seq::<char>::empty();
    if tags.len() == 1 {
        lemma_split_append_word(e, tags[0]);
        assert(e + tags[0] =~= tags[0]);
        assert(split_spaces(e) =~= seq![e]);
        assert(seq![e].drop_last().push(e + tags[0]) =~= tags);
    } else {
        let head = tags.drop_last();
        assert forall|i: int| 0 <= i < head.len() implies space_free(#[trigger] head[i]) by {
            assert(head[i] == tags[i]);
        }
        law_tags_round_trip(head);
        let j = join_spaces(head);
        let js = j + seq![' '];
        assert(js.drop_last() =~= j);
        assert(split_spaces(js) == head.push(e));
        lemma_split_append_word(js, tags.last());
        assert(e + tags.last() =~= tags.last());
        assert(head.push(e).drop_last() =~= head);
        assert(head.push(tags.last()) =~= tags);
    }
}

/// Joining the pieces of any text with spaces gives the text back.
pub proof fn law_text_round_trip(s: Seq<char>)
    ensures
        join_spaces(split_spaces(s)) == s,
    decreases s.len(),
{
    let sp = seq![' '];
    if s.len() == 0 {
    } else {
        let s0 = s.drop_last();
        law_text_round_trip(s0);
        lemma_split_nonempty(s0);
        let p = split_spaces(s0);
        if s.last() == ' ' {
            let q = p.push(Seq::<char>::empty());
            assert(q.drop_last() =~= p);
            assert(join_spaces(q) =~= s0 + sp);
            assert(s0 + sp =~= s);
        } else {
            let q = p.drop_last().push(p.last().push(s.last()));
            assert(q.drop_last() =~= p.drop_last());
            if p.len() == 1 {
                assert(join_spaces(p) == p[0]);
                assert(q.len() == 1);
                assert(q[0] == p[0].push(s.last()));
                assert(s0.push(s.last()) =~= s);
            } else {
                assert(join_spaces(p) == join_spaces(p.drop_last()) + sp + p.last());
                assert(q.last() == p.last().push(s.last()));
                assert(join_spaces(q) == join_spaces(q.drop_last()) + sp + q.last());
                assert((join_spaces(p.drop_last()) + sp + p.last()).push(s.last())
                    =~= join_spaces(p.drop_last()) + sp + p.last().push(s.last()));
                assert(s0.push(s.last()) =~= s);
            }
        }
    }
}

/// Encodes a tag list for storage.
pub fn encode_tags(tags: &Vec<String>) -> (out: String)
    ensures
        out@ == join_spaces(tags.deep_view()),
{
    let ghost all = tags.deep_view();
    let mut out = String::new();
    let mut i: usize = 0;
    while i < tags.len()
        invariant
            i <= tags.len(),
            all == tags.deep_view(),
            out@ == join_spaces(all.subrange(0, i as int)),
        decreases tags.len() - i,
    {
        proof {
            reveal_strlit(" ");
            assert(" "@ =~= seq![' ']);
            assert(all.subrange(0, i + 1).drop_last() =~= all.subrange(0, i as int));
            assert(all.subrange(0, i + 1).last() == tags[i as int]@);
        }
        if i > 0 {
            out.append(" ");
            out.append(tags[i].as_str());
        } else {
            out.append(tags[i].as_str());
            assert(out@ =~= tags[i as int]@);
        }
        i = i + 1;
    }
    proof {
        assert(all.subrange(0, i as int) =~= all);
    }
    out
}

/// Decodes a stored tag string into its tags.
pub fn decode_tags(stored: &str) -> (tags: Vec<String>)
    ensures
        tags.deep_view() == split_spaces(stored@),
{
    let n: usize = stored.unicode_len();
    let mut tags: Vec<String> = Vec::new();
    let mut start: usize = 0;
    let mut i: usize = 0;
    proof {
        assert(stored@.subrange(0, 0) =~= Seq::<char>::empty());
        assert(tags.deep_view().push(stored@.subrange(0, 0)) =~= seq![Seq::<char>::empty()]);
    }
    while i < n
        invariant
            n == stored@.len(),
            start <= i <= n,
            split_spaces(stored@.subrange(0, i as int)) == tags.deep_view().push(
                stored@.subrange(start as int, i as int),
            ),
        decreases n - i,
    {
        let c = stored.get_char(i);
        proof {
            let cur = stored@.subrange(0, i + 1);
            assert(cur.drop_last() =~= stored@.subrange(0, i as int));
            assert(cur.last() == c);
            let before = tags.deep_view().push(stored@.subrange(start as int, i as int));
            assert(before.drop_last() =~= tags.deep_view());
            assert(stored@.subrange(start as int, i as int).push(c) =~= stored@.subrange(
                start as int,
                i + 1,
            ));
        }
        if c == ' ' {
            let piece = String::from_str(stored.substring_char(start, i));
            let ghost old_tags = tags.deep_view();
            tags.push(piece);
            start = i + 1;
            proof {
                assert(tags.deep_view() =~= old_tags.push(piece@));
                assert(stored@.subrange(start as int, i + 1) =~= Seq::<char>::empty());
            }
        }
        i = i + 1;
    }
    let piece = String::from_str(stored.substring_char(start, n));
    let ghost old_tags = tags.deep_view();
    tags.push(piece);
    proof {
        assert(tags.deep_view() =~= old_tags.push(piece@));
        assert(stored@.subrange(0, n as int) =~= stored@);
    }
    tags
}

} // verus!
