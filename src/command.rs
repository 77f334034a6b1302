use vstd::prelude::*;
use crate::error::{Error, usage_error};

verus! {

/// A request as mathematical values: the output path and the input paths in order.
pub struct RequestView {
    pub output: Seq<char>,
    pub inputs: Seq<Seq<char>>,
}

/// The texts of a list of strings.
pub open spec fn texts(v: Seq<String>) -> Seq<Seq<char>> {
    v.map_values(|s: String| s@)
}

/// A validated invocation: where to write the archive and which files to put in it.
pub struct CreateArchive {
    output_path: String,
    input_paths: Vec<String>,
}

impl View for CreateArchive {
    type V = RequestView;

    closed spec fn view(&self) -> RequestView {
        RequestView { output: self.output_path@, inputs: texts(self.input_paths@) }
    }
}

impl CreateArchive {
    /// A request always names at least one input.
    pub open spec fn wf(&self) -> bool {
        self@.inputs.len() >= 1
    }

    #[verifier::type_invariant]
    closed spec fn names_an_input(&self) -> bool {
        self.input_paths@.len() >= 1
    }

    /// Reads the argument list (without the program name): the first argument
    /// is the output path and the others are the inputs, in order, repeats kept.
    /// Fewer than two arguments is a usage error.
    pub fn from_args(args: Vec<String>) -> (r: Result<CreateArchive, Error>)
        ensures
            r is Ok <==> args@.len() >= 2,
            match r {
                Ok(c) => {
                    &&& c.wf()
                    &&& c@.output == args@[0]@
                    &&& c@.inputs == texts(args@.subrange(1, args@.len() as int))
                },
                Err(e) => e@ == usage_error() && e.wf(),
            },
    {
        if args.len() < 2 {
            return Err(Error::usage());
        }
        let mut input_paths = args;
        let output_path = input_paths.remove(0);
        proof {
            assert(input_paths@ == args@.subrange(1, args@.len() as int));
        }
        Ok(CreateArchive { output_path, input_paths })
    }

    /// The path of the archive to create.
    pub fn output(&self) -> (r: &str)
        ensures
            r@ == self@.output,
    {
        self.output_path.as_str()
    }

    /// The input paths, in the order given; there is at least one.
    pub fn inputs(&self) -> (r: &[String])
        ensures
            texts(r@) == self@.inputs,
            self.wf(),
    {
        proof {
            use_type_invariant(self);
        }
        self.input_paths.as_slice()
    }
}

} // verus!
