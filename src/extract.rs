//! Extracting the changelog section for one version: a pre-order walk over
//! the document's outline that collects the rendered nodes between the
//! matching level-2 heading and the next.
use vstd::prelude::*;
use vstd::utf8::{valid_utf8, decode_utf8};
use crate::document::{Block, BlockKind, Step, opaque_kind};

verus! {

broadcast use vstd::std_specs::vec::group_vec_axioms, vstd::seq::group_seq_axioms;

/// Why an extraction failed.
#[derive(Debug, Clone, Copy, PartialEq, Eq)]
pub enum ExtractionError {
    /// A level-2 heading, or the collected section, is not valid UTF-8.
    InvalidEncoding,
}

/// Where a walk stands: whether it is inside the wanted section, and the bytes
/// collected so far. `None` once a heading turned out not to be valid UTF-8.
pub type Progress = Option<(bool, Seq<u8>)>;

/// The text of a heading, decoded from its bytes.
pub open spec fn heading_text(b: Block) -> Seq<char> {
    decode_utf8(b.content@)
}

/// The policy applied at one visited node.
pub open spec fn step(b: Block, tag: Seq<char>, p: Progress) -> Progress {
    match p {
        None => None,
        Some((collecting, out)) => if b.is_boundary() {
            if valid_utf8(b.content@) {
                Some((heading_text(b) == tag, out))
            } else {
                None
            }
        } else if b.kind is ListItem || !collecting {
            Some((collecting, out))
        } else {
            Some((collecting, out + b.rendered@))
        },
    }
}

/// The policy applied to each node of `s` in turn.
pub open spec fn run(s: Seq<Block>, tag: Seq<char>, p: Progress) -> Progress
    decreases s.len(),
{
    if s.len() == 0 {
        p
    } else {
        step(s.last(), tag, run(s.drop_last(), tag, p))
    }
}

/// Whether a node entered at `depth` open nodes, `skip` of them inside a
/// subtree the walk does not enter, is visited: the root always is, any
/// other node when it is neither opaque nor under an opaque node.
pub open spec fn visible(depth: nat, skip: nat, b: Block) -> bool {
    skip == 0 && (depth == 0 || !b.is_opaque())
}

/// How one step changes the number of open nodes and of those inside a
/// subtree that the walk does not enter.
pub open spec fn advance(depth: nat, skip: nat, s: Step) -> (nat, nat) {
    match s {
        Step::Enter(b) => if visible(depth, skip, b) {
            (depth + 1, 0)
        } else {
            (depth + 1, skip + 1)
        },
        Step::Leave => (
            if depth > 0 { (depth - 1) as nat } else { 0 },
            if skip > 0 { (skip - 1) as nat } else { 0 },
        ),
    }
}

/// The open nodes, and those of them inside a subtree that the walk does
/// not enter, after `steps`.
pub open spec fn scan(steps: Seq<Step>) -> (nat, nat)
    decreases steps.len(),
{
    if steps.len() == 0 {
        (0, 0)
    } else {
        let (depth, skip) = scan(steps.drop_last());
        advance(depth, skip, steps.last())
    }
}

/// The nodes that a walk of the outline `steps` visits, in order: every node
/// but those that are opaque or lie under an opaque node (the root aside).
pub open spec fn visited(steps: Seq<Step>) -> Seq<Block>
    decreases steps.len(),
{
    if steps.len() == 0 {
        Seq::empty()
    } else {
        let before = visited(steps.drop_last());
        let (depth, skip) = scan(steps.drop_last());
        match steps.last() {
            Step::Enter(b) => if visible(depth, skip, b) {
                before.push(b)
            } else {
                before
            },
            Step::Leave => before,
        }
    }
}

/// The bytes of the section named `tag` in the document outlined by `steps`;
/// `None` on a level-2 heading that is not valid UTF-8.
pub open spec fn section_bytes(steps: Seq<Step>, tag: Seq<char>) -> Option<Seq<u8>> {
    match run(visited(steps), tag, Some((false, Seq::empty()))) {
        Some((_, out)) => Some(out),
        None => None,
    }
}

/// The section named `tag` in the document outlined by `steps`, as text.
pub open spec fn section(steps: Seq<Step>, tag: Seq<char>) -> Result<Seq<char>, ExtractionError> {
    match section_bytes(steps, tag) {
        Some(out) => if valid_utf8(out) {
            Ok(decode_utf8(out))
        } else {
            Err(ExtractionError::InvalidEncoding)
        },
        None => Err(ExtractionError::InvalidEncoding),
    }
}

/// The text of a result, for contracts.
pub open spec fn text_of(r: Result<String, ExtractionError>) -> Result<Seq<char>, ExtractionError> {
    match r {
        Ok(s) => Ok(s@),
        Err(e) => Err(e),
    }
}

/// A failed walk stays failed.
pub proof fn lemma_failure_sticks(s: Seq<Block>, tag: Seq<char>)
    ensures
        run(s, tag, None) == None::<(bool, Seq<u8>)>,
    decreases s.len(),
{
    if s.len() > 0 {
        lemma_failure_sticks(s.drop_last(), tag);
    }
}

/// Running over two sequences is running over the first, then the second.
pub proof fn lemma_run_append(s1: Seq<Block>, s2: Seq<Block>, tag: Seq<char>, p: Progress)
    ensures
        run(s1 + s2, tag, p) == run(s2, tag, run(s1, tag, p)),
    decreases s2.len(),
{
    if s2.len() == 0 {
        assert(s1 + s2 =~= s1);
    } else {
        assert((s1 + s2).drop_last() =~= s1 + s2.drop_last());
        assert((s1 + s2).last() == s2.last());
        lemma_run_append(s1, s2.drop_last(), tag, p);
    }
}

/// The nodes visited along a prefix of an outline are a prefix of those
/// visited along the whole of it.
proof fn lemma_visited_prefix(steps: Seq<Step>, i: int)
    requires
        0 <= i <= steps.len(),
    ensures
        visited(steps.take(i)) == visited(steps).take(visited(steps.take(i)).len() as int),
        visited(steps.take(i)).len() <= visited(steps).len(),
    decreases steps.len() - i,
{
    if i < steps.len() {
        lemma_visited_prefix(steps, i + 1);
        let next = steps.take(i + 1);
        assert(next.drop_last() =~= steps.take(i));
        let a = visited(steps.take(i));
        let b = visited(next);
        assert(a =~= b.take(a.len() as int));
    } else {
        assert(steps.take(i) =~= steps);
    }
}

/// The visitor that a walk carries: whether it is inside the wanted section,
/// what it has collected, how many nodes are open, and how many of those lie
/// in a subtree that it does not enter.
pub struct Collector {
    pub collecting: bool,
    pub buffer: Vec<u8>,
    pub depth: usize,
    pub skip: usize,
}

impl Collector {
    /// Where this collector stands, as a walk sees it.
    pub open spec fn progress(&self) -> Progress {
        Some((self.collecting, self.buffer@))
    }

    /// A collector outside any section, with nothing collected or open.
    pub fn new() -> (c: Collector)
        ensures
            !c.collecting,
            c.buffer@ == Seq::<u8>::empty(),
            c.depth == 0,
            c.skip == 0,
    {
        Collector { collecting: false, buffer: Vec::new(), depth: 0, skip: 0 }
    }

    /// Takes one step of an outline: tracks the open nodes, and applies the
    /// policy to a node that the walk visits. `false` when that node is a
    /// level-2 heading that is not valid UTF-8.
    pub fn visit(&mut self, s: &Step, tag: &str) -> (ok: bool)
        requires
            old(self).depth < usize::MAX,
            old(self).skip <= old(self).depth,
        ensures
            final(self).skip <= final(self).depth,
            (final(self).depth as nat, final(self).skip as nat)
                == advance(old(self).depth as nat, old(self).skip as nat, *s),
            (match *s {
                Step::Enter(b) => if visible(old(self).depth as nat, old(self).skip as nat, b) {
                    step(b, tag@, old(self).progress())
                } else {
                    old(self).progress()
                },
                Step::Leave => old(self).progress(),
            }) == (if ok { final(self).progress() } else { None }),
    {
        match s {
            Step::Enter(b) => {
                if self.skip == 0 && (self.depth == 0 || !opaque_kind(&b.kind)) {
                    self.depth = self.depth + 1;
                    self.apply(b, tag)
                } else {
                    self.depth = self.depth + 1;
                    self.skip = self.skip + 1;
                    true
                }
            },
            Step::Leave => {
                if self.depth > 0 {
                    self.depth = self.depth - 1;
                }
                if self.skip > 0 {
                    self.skip = self.skip - 1;
                }
                true
            },
        }
    }

    /// Applies the policy for one visited node.
    fn apply(&mut self, b: &Block, tag: &str) -> (ok: bool)
        ensures
            final(self).depth == old(self).depth,
            final(self).skip == old(self).skip,
            step(*b, tag@, old(self).progress()) == (if ok {
                final(self).progress()
            } else {
                None
            }),
    {
        match b.kind {
            BlockKind::Heading { level } => {
                if level == 2 {
                    match decode(b.content.clone()) {
                        Some(text) => {
                            self.collecting = text == tag.to_owned();
                            true
                        },
                        None => false,
                    }
                } else {
                    self.append_if_collecting(b);
                    true
                }
            },
            BlockKind::ListItem => true,
            _ => {
                self.append_if_collecting(b);
                true
            },
        }
    }

    fn append_if_collecting(&mut self, b: &Block)
        ensures
            final(self).collecting == old(self).collecting,
            final(self).depth == old(self).depth,
            final(self).skip == old(self).skip,
            final(self).buffer@ == (if old(self).collecting {
                old(self).buffer@ + b.rendered@
            } else {
                old(self).buffer@
            }),
    {
        if self.collecting {
            self.buffer.extend_from_slice(b.rendered.as_slice());
            assert(self.buffer@ =~= old(self).buffer@ + b.rendered@);
        }
    }
}

/// The section that the level-2 heading `tag` opens in the document outlined
/// by `steps`: every visited node between it and the next level-2 heading,
/// or the end, rendered back to commonmark. Empty when no visited level-2
/// heading reads `tag`.
pub fn extract(steps: &Vec<Step>, tag: &str) -> (r: Result<String, ExtractionError>)
    ensures
        text_of(r) == section(steps@, tag@),
{
    let ghost init: Progress = Some((false, Seq::<u8>::empty()));
    let mut collector = Collector::new();
    let n = steps.len();
    let mut i: usize = 0;
    assert(steps@.take(0) =~= Seq::<Step>::empty());
    while i < n
        invariant
            n == steps@.len(),
            i <= n,
            collector.depth <= i,
            collector.skip <= collector.depth,
            init == Some((false, Seq::<u8>::empty())),
            (collector.depth as nat, collector.skip as nat) == scan(steps@.take(i as int)),
            run(visited(steps@.take(i as int)), tag@, init) == collector.progress(),
        decreases n - i,
    {
        let ghost before = steps@.take(i as int);
        let ghost after = steps@.take(i + 1);
        assert(after.drop_last() =~= before);
        assert(after.last() == steps@[i as int]);
        let ok = collector.visit(&steps[i], tag);
        if !ok {
            proof {
                let upto = visited(after);
                let all = visited(steps@);
                assert(run(upto, tag@, init) == None::<(bool, Seq<u8>)>) by {
                    match steps@[i as int] {
                        Step::Enter(b) => {
                            if visible(scan(before).0, scan(before).1, b) {
                                assert(upto == visited(before).push(b));
                                assert(upto.drop_last() =~= visited(before));
                                assert(upto.last() == b);
                                assert(run(upto, tag@, init) == step(b, tag@, run(visited(before), tag@, init)));
                            } else {
                                assert(upto == visited(before));
                            }
                        },
                        Step::Leave => {},
                    }
                }
                lemma_visited_prefix(steps@, i + 1);
                let rest = all.subrange(upto.len() as int, all.len() as int);
                assert(all =~= upto + rest);
                lemma_run_append(upto, rest, tag@, init);
                lemma_failure_sticks(rest, tag@);
                assert(run(all, tag@, init) == None::<(bool, Seq<u8>)>);
                assert(run(visited(steps@), tag@, Some((false, Seq::<u8>::empty()))) == None::<(bool, Seq<u8>)>);
            }
            return Err(ExtractionError::InvalidEncoding);
        }
        proof {
            match steps@[i as int] {
                Step::Enter(b) => {
                    if visible(scan(before).0, scan(before).1, b) {
                        assert(visited(after) == visited(before).push(b));
                        assert(visited(after).drop_last() =~= visited(before));
                    }
                },
                Step::Leave => {},
            }
        }
        i = i + 1;
    }
    assert(steps@.take(n as int) =~= steps@);
    match decode(collector.buffer) {
        Some(text) => Ok(text),
        None => Err(ExtractionError::InvalidEncoding),
    }
}

/// Relies on `String::from_utf8`: it succeeds exactly on valid UTF-8, and then
/// holds the characters that the bytes encode.
#[verifier::external_body]
fn decode(bytes: Vec<u8>) -> (r: Option<String>)
    ensures
        r.is_some() == valid_utf8(bytes@),
        r matches Some(s) ==> s@ == decode_utf8(bytes@),
{
    String::from_utf8(bytes).ok()
}

} // verus!
