//! The mathematical model of a path template.
//!
//! A path is a run of characters in which `/` separates segments. A segment
//! that begins with `:` is a placeholder; every other segment, the empty one
//! included, is literal. Instantiating a template keeps the literal segments
//! and the separators as they are and puts the arguments, in their order, in
//! the place of the placeholders, in theirs.

use vstd::prelude::*;

verus! {

/// The character that separates the segments of a path.
pub const SEPARATOR: char = '/';

/// The character with which a placeholder segment begins.
pub const MARKER: char = ':';

/// The segments of a path: the stretches of characters between its
/// separators. A path with `n` separators has `n + 1` segments, some of which
/// may be empty.
pub open spec fn segments(path: Seq<char>) -> Seq<Seq<char>>
    decreases path.len(),
{
    if path.len() == 0 {
        seq![Seq::empty()]
    } else {
        let before = segments(path.drop_last());
        if path.last() == SEPARATOR {
            before.push(Seq::empty())
        } else {
            before.drop_last().push(before.last().push(path.last()))
        }
    }
}

/// Whether a segment stands for an argument.
pub open spec fn is_placeholder(segment: Seq<char>) -> bool {
    segment.len() > 0 && segment[0] == MARKER
}

/// How many of the given segments are placeholders.
pub open spec fn placeholders(segs: Seq<Seq<char>>) -> nat
    decreases segs.len(),
{
    if segs.len() == 0 {
        0
    } else {
        placeholders(segs.drop_last()) + if is_placeholder(segs.last()) {
            1nat
        } else {
            0nat
        }
    }
}

/// The segments with each placeholder replaced by an argument: the
/// placeholder with `k` placeholders to its left gets argument `k`.
pub open spec fn fill(segs: Seq<Seq<char>>, args: Seq<Seq<char>>) -> Seq<Seq<char>> {
    Seq::new(
        segs.len(),
        |i: int|
            if is_placeholder(segs[i]) {
                args[placeholders(segs.take(i)) as int]
            } else {
                segs[i]
            },
    )
}

/// The given segments written one after the other, each followed by a
/// separator.
pub open spec fn lead(segs: Seq<Seq<char>>) -> Seq<char>
    decreases segs.len(),
{
    if segs.len() == 0 {
        Seq::empty()
    } else {
        lead(segs.drop_last()) + segs.last() + seq![SEPARATOR]
    }
}

/// The path made of the given segments: a separator between each two
/// neighbours, none before the first or after the last.
pub open spec fn join(segs: Seq<Seq<char>>) -> Seq<char> {
    if segs.len() == 0 {
        Seq::empty()
    } else {
        lead(segs.drop_last()) + segs.last()
    }
}

/// How many placeholders a template has.
pub open spec fn arity(template: Seq<char>) -> nat {
    placeholders(segments(template))
}

/// Whether a piece of text is free of separators.
pub open spec fn is_segment(text: Seq<char>) -> bool {
    !text.contains(SEPARATOR)
}

/// Whether the arguments fit the template: there is one for each placeholder
/// and none of them holds a separator.
pub open spec fn accepts(template: Seq<char>, args: Seq<Seq<char>>) -> bool {
    &&& args.len() == arity(template)
    &&& forall|i: int| 0 <= i < args.len() ==> is_segment(#[trigger] args[i])
}

/// The concrete path that a template and its arguments stand for.
pub open spec fn instantiate(template: Seq<char>, args: Seq<Seq<char>>) -> Seq<char> {
    join(fill(segments(template), args))
}

/// A path always has a segment.
pub proof fn lemma_segments_len(path: Seq<char>)
    ensures
        segments(path).len() >= 1,
    decreases path.len(),
{
    if path.len() > 0 {
        lemma_segments_len(path.drop_last());
    }
}

/// Reading one more character either opens a new, empty segment (at a
/// separator) or lengthens the last one.
pub proof fn lemma_segments_step(path: Seq<char>, at: int)
    requires
        0 <= at < path.len(),
    ensures
        segments(path.take(at)).len() >= 1,
        path[at] == SEPARATOR ==> segments(path.take(at + 1)) == segments(path.take(at)).push(
            Seq::empty(),
        ),
        path[at] != SEPARATOR ==> segments(path.take(at + 1)) == segments(
            path.take(at),
        ).drop_last().push(segments(path.take(at)).last().push(path[at])),
{
    lemma_segments_len(path.take(at));
    assert(path.take(at + 1).drop_last() =~= path.take(at));
}

/// A prefix of the segments holds no more placeholders than the whole.
pub proof fn lemma_placeholders_prefix(segs: Seq<Seq<char>>, n: int)
    requires
        0 <= n <= segs.len(),
    ensures
        placeholders(segs.take(n)) <= placeholders(segs),
    decreases segs.len(),
{
    if n == segs.len() {
        assert(segs.take(n) =~= segs);
    } else {
        lemma_placeholders_prefix(segs.drop_last(), n);
        assert(segs.drop_last().take(n) =~= segs.take(n));
    }
}

/// Splitting a path into its segments loses nothing: joined again, the
/// segments give the path back.
pub proof fn lemma_join_segments(path: Seq<char>)
    ensures
        join(segments(path)) == path,
    decreases path.len(),
{
    if path.len() == 0 {
        assert(seq![Seq::<char>::empty()].drop_last() =~= Seq::<Seq<char>>::empty());
        assert(join(segments(path)) =~= path);
    } else {
        let shorter = path.drop_last();
        let before = segments(shorter);
        lemma_segments_len(shorter);
        lemma_join_segments(shorter);
        if path.last() == SEPARATOR {
            assert(before.push(Seq::empty()).drop_last() =~= before);
            assert(join(segments(path)) =~= shorter.push(path.last()));
        } else {
            let grown = before.last().push(path.last());
            assert(before.drop_last().push(grown).drop_last() =~= before.drop_last());
            assert(join(segments(path)) =~= shorter.push(path.last()));
        }
        assert(shorter.push(path.last()) =~= path);
    }
}

/// No segment of a path holds a separator.
pub proof fn lemma_segments_clean(path: Seq<char>)
    ensures
        forall|i: int| 0 <= i < segments(path).len() ==> is_segment(#[trigger] segments(path)[i]),
    decreases path.len(),
{
    if path.len() > 0 {
        let before = segments(path.drop_last());
        lemma_segments_len(path.drop_last());
        lemma_segments_clean(path.drop_last());
        if path.last() != SEPARATOR {
            assert(is_segment(before.last()));
            let grown = before.last().push(path.last());
            assert forall|j: int| 0 <= j < grown.len() implies grown[j] != SEPARATOR by {
                if j < before.last().len() {
                    assert(before.last().contains(grown[j]));
                }
            }
        }
    }
}

/// Text without a separator, written behind a path, lengthens the path's
/// last segment and changes nothing else.
pub proof fn lemma_segments_append(path: Seq<char>, text: Seq<char>)
    requires
        is_segment(text),
    ensures
        segments(path).len() >= 1,
        segments(path + text) == segments(path).drop_last().push(segments(path).last() + text),
    decreases text.len(),
{
    lemma_segments_len(path);
    let segs = segments(path);
    if text.len() == 0 {
        assert(path + text =~= path);
        assert(segs.last() + text =~= segs.last());
        assert(segs.drop_last().push(segs.last()) =~= segs);
    } else {
        let shorter = text.drop_last();
        assert forall|j: int| 0 <= j < shorter.len() implies shorter[j] != SEPARATOR by {
            assert(text.contains(text[j]));
        }
        assert(text.contains(text.last()));
        lemma_segments_append(path, shorter);
        assert((path + text).drop_last() =~= path + shorter);
        let before = segs.drop_last().push(segs.last() + shorter);
        assert(before.drop_last() =~= segs.drop_last());
        assert((segs.last() + shorter).push(text.last()) =~= segs.last() + text);
    }
}

/// Joining is undone by splitting, as long as there is a segment and none
/// of them holds a separator.
pub proof fn lemma_segments_join(segs: Seq<Seq<char>>)
    requires
        segs.len() >= 1,
        forall|i: int| 0 <= i < segs.len() ==> is_segment(#[trigger] segs[i]),
    ensures
        segments(join(segs)) == segs,
    decreases segs.len(),
{
    let init = segs.drop_last();
    if init.len() == 0 {
        assert(lead(init) =~= Seq::<char>::empty());
        assert(segments(lead(init)) =~= init.push(Seq::empty()));
    } else {
        assert forall|i: int| 0 <= i < init.len() implies is_segment(#[trigger] init[i]) by {
            assert(init[i] == segs[i]);
        }
        lemma_segments_join(init);
        let closed = lead(init);
        assert(closed =~= join(init).push(SEPARATOR));
        assert(closed.drop_last() =~= join(init));
    }
    assert(is_segment(segs.last()));
    lemma_segments_append(lead(init), segs.last());
    assert(init.push(Seq::<char>::empty()).drop_last() =~= init);
    assert(Seq::<char>::empty() + segs.last() =~= segs.last());
    assert(init.push(segs.last()) =~= segs);
}

/// Arguments are handed out from left to right: of two placeholders the
/// left one gets the argument with the smaller index, and every placeholder
/// gets one whose index is below the number of placeholders.
pub proof fn lemma_fill_order(segs: Seq<Seq<char>>, i: int, j: int)
    requires
        0 <= i <= j < segs.len(),
        is_placeholder(segs[j]),
    ensures
        placeholders(segs.take(j)) < placeholders(segs),
        i < j && is_placeholder(segs[i]) ==> placeholders(segs.take(i)) < placeholders(
            segs.take(j),
        ),
{
    lemma_placeholders_prefix(segs, j + 1);
    assert(segs.take(j + 1).drop_last() =~= segs.take(j));
    if i < j && is_placeholder(segs[i]) {
        lemma_placeholders_prefix(segs.take(j), i + 1);
        assert(segs.take(j).take(i + 1) =~= segs.take(i + 1));
        assert(segs.take(i + 1).drop_last() =~= segs.take(i));
    }
}

/// Instantiation keeps the borders of the segments: where the arguments fit
/// the template, the concrete path has the template's segments, the literal
/// ones unchanged and, in the place of the placeholder with `k` placeholders
/// to its left, argument `k`.
pub proof fn lemma_instantiate_segments(template: Seq<char>, args: Seq<Seq<char>>)
    requires
        accepts(template, args),
    ensures
        segments(instantiate(template, args)) == fill(segments(template), args),
        segments(instantiate(template, args)).len() == segments(template).len(),
        forall|i: int|
            0 <= i < segments(template).len() ==> #[trigger] segments(
                instantiate(template, args),
            )[i] == if is_placeholder(segments(template)[i]) {
                args[placeholders(segments(template).take(i)) as int]
            } else {
                segments(template)[i]
            },
{
    let segs = segments(template);
    let filled = fill(segs, args);
    lemma_segments_len(template);
    lemma_segments_clean(template);
    assert forall|i: int| 0 <= i < filled.len() implies is_segment(#[trigger] filled[i]) by {
        if is_placeholder(segs[i]) {
            lemma_fill_order(segs, i, i);
        } else {
            assert(is_segment(segs[i]));
        }
    }
    lemma_segments_join(filled);
}

/// A list of segments without placeholders is left as it is, whatever the
/// arguments.
pub proof fn lemma_fill_literal(segs: Seq<Seq<char>>, args: Seq<Seq<char>>)
    requires
        placeholders(segs) == 0,
    ensures
        fill(segs, args) == segs,
{
    assert forall|i: int| 0 <= i < segs.len() implies !is_placeholder(#[trigger] segs[i]) by {
        if is_placeholder(segs[i]) {
            lemma_fill_order(segs, i, i);
        }
    }
    assert(fill(segs, args) =~= segs);
}

/// A template without placeholders accepts the empty list of arguments and
/// no other, and its concrete path is the template itself.
pub proof fn lemma_constant_template(template: Seq<char>, args: Seq<Seq<char>>)
    requires
        arity(template) == 0,
    ensures
        accepts(template, args) <==> args.len() == 0,
        instantiate(template, args) == template,
{
    lemma_fill_literal(segments(template), args);
    lemma_join_segments(template);
}

/// A list with one argument too few or one too many, or with any other
/// number of arguments than the template has placeholders, is not accepted.
pub proof fn lemma_arity_mismatch(template: Seq<char>, args: Seq<Seq<char>>)
    requires
        args.len() != arity(template),
    ensures
        !accepts(template, args),
{
}

} // verus!
