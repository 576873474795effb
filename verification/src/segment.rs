//! Path templates taken apart once, so that they need not be read again
//! each time a path is made from them.

use vstd::prelude::*;
use vstd::string::*;
use crate::template::{
    accepts, arity, fill, instantiate, is_placeholder, is_segment, join, lead,
    lemma_fill_order, lemma_join_segments, lemma_segments_clean, lemma_segments_join,
    lemma_segments_step, placeholders, segments, MARKER, SEPARATOR,
};

verus! {

/// One segment of a template.
#[derive(Debug, PartialEq, Eq)]
pub enum Segment {
    /// A segment that stands for itself; it holds its text.
    Literal(String),
    /// A segment that stands for an argument; it holds what follows the
    /// marker, which is of no consequence.
    Placeholder(String),
}

impl Segment {
    /// The segment as it is written in the template.
    pub open spec fn text(&self) -> Seq<char> {
        match self {
            Segment::Literal(text) => text@,
            Segment::Placeholder(name) => seq![MARKER] + name@,
        }
    }

    /// Whether the segment is what it says: its text holds no separator, and
    /// a literal one does not begin with the marker.
    pub open spec fn wf(&self) -> bool {
        match self {
            Segment::Literal(text) => is_segment(text@) && !is_placeholder(text@),
            Segment::Placeholder(name) => is_segment(name@),
        }
    }

    /// Tells whether the segment stands for an argument.
    pub fn is_placeholder(&self) -> (marked: bool)
        ensures
            marked == (self is Placeholder),
            self.wf() ==> marked == is_placeholder(self.text()),
    {
        match self {
            Segment::Literal(_) => false,
            Segment::Placeholder(_) => true,
        }
    }
}

/// The segments as they are written.
pub open spec fn written(parts: Seq<Segment>) -> Seq<Seq<char>> {
    Seq::new(parts.len(), |i: int| parts[i].text())
}

/// The characters of each argument, in the arguments' order.
pub open spec fn texts(args: Seq<String>) -> Seq<Seq<char>> {
    Seq::new(args.len(), |i: int| args[i]@)
}

/// Why a list of arguments does not fit a template.
#[derive(Clone, Copy, Debug, PartialEq, Eq, Structural)]
pub enum PathError {
    /// The number of arguments is not the number of placeholders.
    Arity {
        /// How many placeholders the template has.
        expected: usize,
        /// How many arguments were given.
        given: usize,
    },
    /// An argument holds a separator, which would shift the borders of the
    /// segments.
    Separator {
        /// The position of the first such argument.
        index: usize,
    },
}

/// Tells whether a piece of text holds a separator.
pub fn holds_separator(text: &str) -> (found: bool)
    ensures
        found == !is_segment(text@),
{
    let mut found: bool = false;
    for c in it: text.chars()
        invariant
            it.seq() == text@,
            found == text@.take(it.index()).contains(SEPARATOR),
    {
        proof {
            let at = it.index();
            assert(text@.take(at + 1) =~= text@.take(at).push(c));
            assert(text@.take(at).push(c).last() == c);
            if text@.take(at).contains(SEPARATOR) {
                let j = choose|j: int| 0 <= j < at && text@.take(at)[j] == SEPARATOR;
                assert(text@.take(at + 1)[j] == SEPARATOR);
            }
            if c == SEPARATOR {
                assert(text@.take(at + 1)[at] == SEPARATOR);
            }
        }
        found = found || c == SEPARATOR;
    }
    proof {
        assert(text@.take(text@.len() as int) =~= text@);
    }
    found
}

/// Finds the first argument that holds a separator.
pub fn first_with_separator(args: &Vec<String>) -> (first: Option<usize>)
    ensures
        match first {
            Some(index) => {
                &&& index < args.len()
                &&& !is_segment(args[index as int]@)
                &&& forall|j: int| 0 <= j < index ==> is_segment(#[trigger] args[j]@)
            },
            None => forall|j: int| 0 <= j < args.len() ==> is_segment(#[trigger] args[j]@),
        },
{
    let mut index: usize = 0;
    while index < args.len()
        invariant
            index <= args.len(),
            forall|j: int| 0 <= j < index ==> is_segment(#[trigger] args[j]@),
        decreases args.len() - index,
    {
        if holds_separator(args[index].as_str()) {
            return Some(index);
        }
        index = index + 1;
    }
    None
}

/// A template taken apart into its segments.
pub struct PathTemplate {
    parts: Vec<Segment>,
}

impl View for PathTemplate {
    type V = Seq<Seq<char>>;

    /// The segments as they are written in the template.
    closed spec fn view(&self) -> Seq<Seq<char>> {
        written(self.parts@)
    }
}

impl PathTemplate {
    /// Whether the template is well formed: it has a segment, and each
    /// segment is well formed. Every template that `parse` returns is.
    pub closed spec fn wf(&self) -> bool {
        &&& self.parts.len() >= 1
        &&& forall|i: int| 0 <= i < self.parts.len() ==> (#[trigger] self.parts[i]).wf()
    }

    /// The template as it is written.
    pub open spec fn text(&self) -> Seq<char> {
        join(self@)
    }

    /// A well-formed template is taken apart as its text would be.
    pub proof fn lemma_parts(&self)
        requires
            self.wf(),
        ensures
            self@.len() >= 1,
            segments(self.text()) == self@,
            arity(self.text()) == placeholders(self@),
    {
        assert forall|i: int| 0 <= i < self@.len() implies is_segment(#[trigger] self@[i]) by {
            lemma_written_clean(self.parts[i]);
        }
        lemma_segments_join(self@);
    }

    /// Takes a template apart.
    pub fn parse(path: &str) -> (template: PathTemplate)
        ensures
            template.wf(),
            template@ == segments(path@),
            template.text() == path@,
    {
        let total: usize = path.unicode_len();
        let mut parts: Vec<Segment> = Vec::new();
        let mut marked: bool = false;
        let mut start: usize = 0;
        let mut at: usize = 0;
        proof {
            assert(path@.take(0) =~= Seq::<char>::empty());
            assert(written(parts@) =~= segments(path@.take(0)).drop_last());
            assert(path@.subrange(0, 0) =~= Seq::<char>::empty());
        }
        for c in it: path.chars()
            invariant
                it.seq() == path@,
                at == it.index(),
                path@.len() == total,
                start <= at,
                segments(path@.take(at as int)).len() >= 1,
                segments(path@.take(at as int)).last() == path@.subrange(start as int, at as int),
                marked == is_placeholder(segments(path@.take(at as int)).last()),
                written(parts@) == segments(path@.take(at as int)).drop_last(),
                forall|i: int| 0 <= i < parts.len() ==> (#[trigger] parts[i]).wf(),
        {
            let ghost here = segments(path@.take(at as int));
            proof {
                lemma_segments_step(path@, at as int);
                lemma_segments_clean(path@.take(at as int));
                assert(is_segment(here.last()));
                if c == SEPARATOR {
                    assert(here.push(Seq::empty()).drop_last() =~= here);
                    assert(path@.subrange(at + 1, at + 1) =~= Seq::<char>::empty());
                } else {
                    assert(here.drop_last().push(here.last().push(c)).drop_last()
                        =~= here.drop_last());
                    assert(path@.subrange(start as int, at + 1) =~= path@.subrange(
                        start as int,
                        at as int,
                    ).push(c));
                }
            }
            if c == SEPARATOR {
                let part = cut(path, start, at, marked);
                parts.push(part);
                proof {
                    assert(written(parts@) =~= here.drop_last().push(here.last()));
                    assert(here.drop_last().push(here.last()) =~= here);
                }
                marked = false;
                start = at + 1;
            } else if at == start {
                marked = c == MARKER;
            }
            at = at + 1;
        }
        proof {
            assert(path@.take(at as int) =~= path@);
            lemma_segments_clean(path@);
        }
        let part = cut(path, start, at, marked);
        parts.push(part);
        proof {
            let all = segments(path@);
            assert(written(parts@) =~= all.drop_last().push(all.last()));
            assert(all.drop_last().push(all.last()) =~= all);
            lemma_join_segments(path@);
        }
        PathTemplate { parts }
    }

    /// The segments of the template, in their order.
    pub fn parts(&self) -> (parts: &Vec<Segment>)
        ensures
            written(parts@) == self@,
            self.wf() ==> parts.len() >= 1 && forall|i: int|
                0 <= i < parts.len() ==> (#[trigger] parts[i]).wf(),
    {
        &self.parts
    }

    /// Counts the placeholders of the template.
    pub fn placeholder_count(&self) -> (n: usize)
        requires
            self.wf(),
        ensures
            n == placeholders(self@),
            n == arity(self.text()),
    {
        let mut n: usize = 0;
        let mut i: usize = 0;
        proof {
            self.lemma_parts();
            assert(self@.take(0) =~= Seq::<Seq<char>>::empty());
        }
        while i < self.parts.len()
            invariant
                self.wf(),
                i <= self.parts.len(),
                n == placeholders(self@.take(i as int)),
                n <= i,
            decreases self.parts.len() - i,
        {
            proof {
                lemma_written_clean(self.parts[i as int]);
                assert(self@.take(i + 1).drop_last() =~= self@.take(i as int));
            }
            if self.parts[i].is_placeholder() {
                n = n + 1;
            }
            i = i + 1;
        }
        proof {
            assert(self@.take(i as int) =~= self@);
        }
        n
    }

    /// The concrete path for the arguments: the template with each
    /// placeholder, from left to right, replaced by the next argument.
    ///
    /// The arguments must fit the template; `try_instantiate` tests that
    /// first.
    pub fn instantiate(&self, args: &Vec<String>) -> (out: String)
        requires
            self.wf(),
            accepts(self.text(), texts(args@)),
        ensures
            out@ == instantiate(self.text(), texts(args@)),
    {
        let ghost given = texts(args@);
        let ghost filled = fill(self@, given);
        let mut out = String::new();
        let mut used: usize = 0;
        let mut i: usize = 0;
        proof {
            self.lemma_parts();
            reveal_strlit("/");
            assert("/"@ =~= seq![SEPARATOR]);
            assert(self@.take(0) =~= Seq::<Seq<char>>::empty());
            assert(filled.take(0) =~= Seq::<Seq<char>>::empty());
        }
        while i < self.parts.len()
            invariant
                self.wf(),
                given == texts(args@),
                filled == fill(self@, given),
                args.len() == placeholders(self@),
                "/"@ == seq![SEPARATOR],
                i <= self.parts.len(),
                used == placeholders(self@.take(i as int)),
                used <= args.len(),
                out@ == join(filled.take(i as int)),
            decreases self.parts.len() - i,
        {
            proof {
                lemma_written_clean(self.parts[i as int]);
                assert(self@.take(i + 1).drop_last() =~= self@.take(i as int));
                assert(filled.take(i + 1).drop_last() =~= filled.take(i as int));
                if is_placeholder(self@[i as int]) {
                    lemma_fill_order(self@, i as int, i as int);
                }
            }
            if i > 0 {
                out.append("/");
            }
            match &self.parts[i] {
                Segment::Literal(text) => {
                    out.append(text.as_str());
                },
                Segment::Placeholder(_) => {
                    out.append(args[used].as_str());
                    used = used + 1;
                },
            }
            proof {
                let before = filled.take(i as int);
                if i > 0 {
                    assert(before.drop_last().push(before.last()) =~= before);
                    assert(lead(before) =~= join(before) + seq![SEPARATOR]);
                }
                assert(out@ =~= lead(before) + filled[i as int]);
            }
            i = i + 1;
        }
        proof {
            assert(filled.take(i as int) =~= filled);
        }
        out
    }

    /// The concrete path for the arguments if they fit the template, and
    /// else the reason why they do not: a wrong number of arguments comes
    /// before a separator in one of them.
    pub fn try_instantiate(&self, args: &Vec<String>) -> (r: Result<String, PathError>)
        requires
            self.wf(),
        ensures
            match r {
                Ok(out) => {
                    &&& accepts(self.text(), texts(args@))
                    &&& out@ == instantiate(self.text(), texts(args@))
                },
                Err(PathError::Arity { expected, given }) => {
                    &&& expected == arity(self.text())
                    &&& given == args.len()
                    &&& expected != given
                },
                Err(PathError::Separator { index }) => {
                    &&& args.len() == arity(self.text())
                    &&& index < args.len()
                    &&& !is_segment(args[index as int]@)
                    &&& forall|j: int| 0 <= j < index ==> is_segment(#[trigger] args[j]@)
                },
            },
    {
        let expected = self.placeholder_count();
        if args.len() != expected {
            return Err(PathError::Arity { expected, given: args.len() });
        }
        match first_with_separator(args) {
            Some(index) => Err(PathError::Separator { index }),
            None => {
                proof {
                    let given = texts(args@);
                    assert forall|i: int| 0 <= i < given.len() implies is_segment(
                        #[trigger] given[i],
                    ) by {
                        assert(is_segment(args[i]@));
                    }
                }
                Ok(self.instantiate(args))
            },
        }
    }
}

/// A well-formed segment is written without a separator, and begins with
/// the marker exactly if it is a placeholder.
pub proof fn lemma_written_clean(part: Segment)
    requires
        part.wf(),
    ensures
        is_segment(part.text()),
        is_placeholder(part.text()) == (part is Placeholder),
{
    match part {
        Segment::Literal(text) => {},
        Segment::Placeholder(name) => {
            let whole = seq![MARKER] + name@;
            assert forall|j: int| 0 <= j < whole.len() implies whole[j] != SEPARATOR by {
                if j > 0 {
                    assert(name@.contains(name@[j - 1]));
                }
            }
        },
    }
}

/// Cuts one segment out of a template.
fn cut(path: &str, start: usize, end: usize, marked: bool) -> (part: Segment)
    requires
        start <= end <= path@.len(),
        is_segment(path@.subrange(start as int, end as int)),
        marked == is_placeholder(path@.subrange(start as int, end as int)),
    ensures
        part.wf(),
        part.text() == path@.subrange(start as int, end as int),
{
    let ghost whole = path@.subrange(start as int, end as int);
    if marked {
        let name = String::from_str(path.substring_char(start + 1, end));
        proof {
            assert(seq![MARKER] + name@ =~= whole);
            assert forall|j: int| 0 <= j < name@.len() implies name@[j] != SEPARATOR by {
                assert(whole.contains(whole[j + 1]));
            }
        }
        Segment::Placeholder(name)
    } else {
        Segment::Literal(String::from_str(path.substring_char(start, end)))
    }
}

} // verus!
