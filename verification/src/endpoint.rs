//! Route descriptors: where an operation of the store is found.

use vstd::prelude::*;
use crate::method::Method;
use crate::segment::{texts, PathError, PathTemplate};
use crate::template::{accepts, arity, instantiate, is_segment, segments};

verus! {

/// Describes where one operation is found: the method to use and the
/// template of the path.
#[derive(Clone, Copy, Debug)]
pub struct EndpointPath {
    /// The method to apply.
    pub method: Method,
    /// The template of the path. Its segments that begin with a colon are
    /// placeholders, which `instantiated_path` fills in.
    pub path: &'static str,
}

impl EndpointPath {
    /// The template of the path, taken apart. Who makes many paths from one
    /// endpoint keeps the result and instantiates that.
    pub fn template(&self) -> (template: PathTemplate)
        ensures
            template.wf(),
            template@ == segments(self.path@),
            template.text() == self.path@,
    {
        PathTemplate::parse(self.path)
    }

    /// Counts the placeholders of the template.
    pub fn placeholder_count(&self) -> (n: usize)
        ensures
            n == arity(self.path@),
    {
        self.template().placeholder_count()
    }

    /// The concrete path of this endpoint: the template with each
    /// placeholder, from left to right, replaced by the next argument.
    ///
    /// The arguments must fit the template; `try_instantiated_path` tests
    /// that first.
    pub fn instantiated_path(&self, args: &Vec<String>) -> (out: String)
        requires
            accepts(self.path@, texts(args@)),
        ensures
            out@ == instantiate(self.path@, texts(args@)),
    {
        self.template().instantiate(args)
    }

    /// The concrete path of this endpoint if the arguments fit its template,
    /// and else the reason why they do not: a wrong number of arguments comes
    /// before a separator in one of them.
    pub fn try_instantiated_path(&self, args: &Vec<String>) -> (r: Result<String, PathError>)
        ensures
            match r {
                Ok(out) => {
                    &&& accepts(self.path@, texts(args@))
                    &&& out@ == instantiate(self.path@, texts(args@))
                },
                Err(PathError::Arity { expected, given }) => {
                    &&& expected == arity(self.path@)
                    &&& given == args.len()
                    &&& expected != given
                },
                Err(PathError::Separator { index }) => {
                    &&& args.len() == arity(self.path@)
                    &&& index < args.len()
                    &&& !is_segment(args[index as int]@)
                    &&& forall|j: int| 0 <= j < index ==> is_segment(#[trigger] args[j]@)
                },
            },
    {
        self.template().try_instantiate(args)
    }
}

} // verus!
