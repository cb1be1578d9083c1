//! What holds of every changelog: the laws of section extraction, stated
//! over the nodes that a walk of the changelog's outline visits.
use vstd::prelude::*;
use vstd::utf8::{valid_utf8, decode_utf8};
use crate::changelog::changelog_section;
use crate::document::Block;
use crate::extract::{ExtractionError, lemma_run_append, run, heading_text, text_of, visited};
use crate::markdown::comrak_outline;

verus! {

broadcast use vstd::seq::group_seq_axioms;

/// The nodes that a walk of the changelog `source` visits, in order.
pub open spec fn visited_nodes(source: Seq<char>) -> Seq<Block> {
    visited(comrak_outline(source))
}

/// What a node adds to an open section: its rendering, but for a list item,
/// which its list renders.
pub open spec fn emitted(b: Block) -> Seq<u8> {
    if b.kind is ListItem {
        Seq::empty()
    } else {
        b.rendered@
    }
}

/// The renderings of the nodes of `s`, one after the other.
pub open spec fn emitted_all(s: Seq<Block>) -> Seq<u8>
    decreases s.len(),
{
    if s.len() == 0 {
        Seq::empty()
    } else {
        emitted_all(s.drop_last()) + emitted(s.last())
    }
}

/// Every level-2 heading among `s` is valid UTF-8.
pub open spec fn headings_valid(s: Seq<Block>) -> bool {
    forall|k: int| 0 <= k < s.len() && (#[trigger] s[k]).is_boundary() ==> valid_utf8(s[k].content@)
}

/// No level-2 heading among `s` reads `tag`.
pub open spec fn no_heading_reads(s: Seq<Block>, tag: Seq<char>) -> bool {
    forall|k: int| 0 <= k < s.len() && (#[trigger] s[k]).is_boundary() ==> heading_text(s[k]) != tag
}

/// No level-2 heading is among `s`.
pub open spec fn no_boundary(s: Seq<Block>) -> bool {
    forall|k: int| 0 <= k < s.len() ==> !(#[trigger] s[k]).is_boundary()
}

/// Outside the section, nodes that are not the wanted heading leave the
/// walk outside, with nothing more collected.
proof fn lemma_run_closed(s: Seq<Block>, tag: Seq<char>, out: Seq<u8>)
    requires
        headings_valid(s),
        no_heading_reads(s, tag),
    ensures
        run(s, tag, Some((false, out))) == Some((false, out)),
    decreases s.len(),
{
    if s.len() > 0 {
        let k = s.len() - 1;
        assert forall|j: int| 0 <= j < k implies s.drop_last()[j] == s[j] by {}
        assert(s[k] == s.last());
        lemma_run_closed(s.drop_last(), tag, out);
    }
}

/// Inside the section, up to the next level-2 heading, each node adds what
/// it emits.
proof fn lemma_run_open(s: Seq<Block>, tag: Seq<char>, out: Seq<u8>)
    requires
        no_boundary(s),
    ensures
        run(s, tag, Some((true, out))) == Some((true, out + emitted_all(s))),
    decreases s.len(),
{
    if s.len() == 0 {
        assert(out + emitted_all(s) =~= out);
    } else {
        let k = s.len() - 1;
        assert forall|j: int| 0 <= j < k implies s.drop_last()[j] == s[j] by {}
        assert(s[k] == s.last());
        assert(!s[k].is_boundary());
        lemma_run_open(s.drop_last(), tag, out);
        assert(out + emitted_all(s.drop_last()) + emitted(s.last()) =~= out + emitted_all(s));
    }
}

/// A tag that no visited level-2 heading of a changelog reads gives empty
/// notes, not an error, as long as those headings are valid UTF-8.
pub proof fn lemma_absent_tag_is_empty(source: Seq<char>, tag: Seq<char>)
    requires
        headings_valid(visited_nodes(source)),
        no_heading_reads(visited_nodes(source), tag),
    ensures
        changelog_section(source, tag) == Ok::<Seq<char>, ExtractionError>(Seq::<char>::empty()),
{
    lemma_run_closed(visited_nodes(source), tag, Seq::empty());
    assert(valid_utf8(Seq::<u8>::empty()));
    assert(decode_utf8(Seq::<u8>::empty()) =~= Seq::<char>::empty());
}

/// With the level-2 headings of a changelog read in order, the notes of the
/// one at position `p` among the visited nodes are exactly what the nodes
/// strictly between it and the next level-2 heading (at `q`, or the end)
/// emit; nothing under the other headings takes part.
pub proof fn lemma_section_between(source: Seq<char>, tag: Seq<char>, p: int, q: int)
    requires
        headings_valid(visited_nodes(source)),
        0 <= p < q <= visited_nodes(source).len(),
        visited_nodes(source)[p].is_boundary(),
        heading_text(visited_nodes(source)[p]) == tag,
        q == visited_nodes(source).len() || visited_nodes(source)[q].is_boundary(),
        no_boundary(visited_nodes(source).subrange(p + 1, q)),
        forall|k: int|
            0 <= k < visited_nodes(source).len() && k != p && (#[trigger] visited_nodes(source)[k]).is_boundary()
                ==> heading_text(visited_nodes(source)[k]) != tag,
    ensures
        changelog_section(source, tag) == (if valid_utf8(emitted_all(visited_nodes(source).subrange(p + 1, q))) {
            Ok(decode_utf8(emitted_all(visited_nodes(source).subrange(p + 1, q))))
        } else {
            Err(ExtractionError::InvalidEncoding)
        }),
{
    let s = visited_nodes(source);
    let before = s.subrange(0, p);
    let inside = s.subrange(p + 1, q);
    let after = s.subrange(q, s.len() as int);
    let e = Seq::<u8>::empty();
    assert(s =~= before + seq![s[p]] + inside + after);
    assert(headings_valid(before));
    assert(no_heading_reads(before, tag));
    lemma_run_closed(before, tag, e);
    assert(run(seq![s[p]], tag, Some((false, e))) == Some((true, e))) by {
        assert(seq![s[p]].drop_last() =~= Seq::<Block>::empty());
        assert(seq![s[p]].last() == s[p]);
        assert(run(Seq::<Block>::empty(), tag, Some((false, e))) == Some((false, e)));
    }
    lemma_run_open(inside, tag, e);
    let body = emitted_all(inside);
    assert(e + body =~= body);
    lemma_run_append(before, seq![s[p]], tag, Some((false, e)));
    lemma_run_append(before + seq![s[p]], inside, tag, Some((false, e)));
    lemma_run_append(before + seq![s[p]] + inside, after, tag, Some((false, e)));
    if q < s.len() {
        let rest = after.drop_first();
        assert(after =~= seq![s[q]] + rest);
        assert(run(seq![s[q]], tag, Some((true, body))) == Some((false, body))) by {
            assert(seq![s[q]].drop_last() =~= Seq::<Block>::empty());
            assert(seq![s[q]].last() == s[q]);
            assert(run(Seq::<Block>::empty(), tag, Some((true, body))) == Some((true, body)));
        }
        assert forall|k: int| 0 <= k < rest.len() implies rest[k] == s[q + 1 + k] by {}
        assert(headings_valid(rest));
        assert(no_heading_reads(rest, tag));
        lemma_run_closed(rest, tag, body);
        lemma_run_append(seq![s[q]], rest, tag, Some((true, body)));
    } else {
        assert(after =~= Seq::<Block>::empty());
    }
}

/// Reading the notes of a version is repeatable: any two results that meet
/// the contract of `read` for the same changelog and tag agree.
pub proof fn lemma_read_is_repeatable(
    source: Seq<char>,
    tag: Seq<char>,
    first: Result<String, ExtractionError>,
    second: Result<String, ExtractionError>,
)
    requires
        text_of(first) == changelog_section(source, tag),
        text_of(second) == changelog_section(source, tag),
    ensures
        text_of(first) == text_of(second),
{
}

} // verus!
