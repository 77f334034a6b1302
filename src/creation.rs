use vstd::prelude::*;
use crate::command::{CreateArchive, RequestView};
use crate::error::{Error, ErrorView, exit_code_of, io_error, zip_error};

verus! {

/// Description of a failure to create the output file.
pub const CREATE_FAILURE: &'static str = "Unable to create zip file";

/// Description of a failure to open an input file.
pub const OPEN_FAILURE: &'static str = "Unable to open source file";

/// Description of a failure while streaming an input into its entry.
pub const COPY_FAILURE: &'static str = "An error occurred while copying files";

/// Description of an input path that has no final component usable as an entry name.
pub const NAME_FAILURE: &'static str = "Unable to derive an entry name from source file path";

/// The final component of a path as text, where it has a normal one.
pub uninterp spec fn file_name_of(path: Seq<char>) -> Option<Seq<char>>;

/// Relies on std::path::Path::file_name, then OsStr::to_str: the last normal
/// component of the path as text, or nothing (a path ending in `..`, a root,
/// an empty path).
#[verifier::external_body]
fn base_name(path: &str) -> (r: Option<String>)
    ensures
        match r {
            Some(n) => file_name_of(path@) == Some(n@),
            None => file_name_of(path@) is None,
        },
{
    std::path::Path::new(path).file_name().and_then(|n| n.to_str()).map(|n| n.to_string())
}

/// Where the creation of an archive stands: each stage but `Done` waits for
/// the outcome of the action that led into it.
#[derive(Clone, Copy, Debug, PartialEq, Eq, Structural)]
pub enum Stage {
    /// The output file is being created and the container opened on it.
    CreateOutput,
    /// The input with this index is being opened.
    OpenInput(usize),
    /// An entry for the input with this index is being begun.
    StartEntry(usize),
    /// The input with this index is being streamed into its entry.
    CopyInput(usize),
    /// The container is being finalized.
    Finish,
    /// Nothing is left to do.
    Done,
}

/// What the caller is to do next.
#[derive(Debug)]
pub enum Action {
    /// Create the output file at this path and open a container on it.
    CreateOutput(String),
    /// Open the input file at this path for reading.
    OpenInput(String),
    /// Begin an entry with this name, with default options.
    StartEntry(String),
    /// Stream the opened input's bytes into the current entry, in bounded chunks.
    CopyInput,
    /// Finalize the container.
    Finish,
    /// Stop: the whole operation ends with this result.
    Complete(Result<(), Error>),
}

/// An action as mathematical values.
pub enum ActionView {
    CreateOutput(Seq<char>),
    OpenInput(Seq<char>),
    StartEntry(Seq<char>),
    CopyInput,
    Finish,
    Complete(Result<(), ErrorView>),
}

impl View for Action {
    type V = ActionView;

    open spec fn view(&self) -> ActionView {
        match self {
            Action::CreateOutput(p) => ActionView::CreateOutput(p@),
            Action::OpenInput(p) => ActionView::OpenInput(p@),
            Action::StartEntry(n) => ActionView::StartEntry(n@),
            Action::CopyInput => ActionView::CopyInput,
            Action::Finish => ActionView::Finish,
            Action::Complete(Ok(())) => ActionView::Complete(Ok(())),
            Action::Complete(Err(e)) => ActionView::Complete(Err(e@)),
        }
    }
}

/// The outcome of an action: success, or the text of what went wrong.
pub open spec fn outcome_view(o: Result<(), String>) -> Result<(), Seq<char>> {
    match o {
        Ok(()) => Ok(()),
        Err(c) => Err(c@),
    }
}

/// The stage reached on moving to the input with index `j`: it is opened if
/// it has an entry name, the creation ends if it has none, and the container
/// is finalized once every input is in.
pub open spec fn entered(inputs: Seq<Seq<char>>, j: int) -> Stage {
    if j < inputs.len() {
        if file_name_of(inputs[j]) is Some {
            Stage::OpenInput(j as usize)
        } else {
            Stage::Done
        }
    } else {
        Stage::Finish
    }
}

/// The action that goes with moving to the input with index `j`.
pub open spec fn entering(inputs: Seq<Seq<char>>, j: int) -> ActionView {
    if j < inputs.len() {
        if file_name_of(inputs[j]) is Some {
            ActionView::OpenInput(inputs[j])
        } else {
            ActionView::Complete(Err(io_error(inputs[j], NAME_FAILURE@)))
        }
    } else {
        ActionView::Finish
    }
}

/// The stage after the action of stage `s` succeeded (`ok`) or failed.
/// The first failure ends the creation.
pub open spec fn next_stage(inputs: Seq<Seq<char>>, s: Stage, ok: bool) -> Stage {
    if !ok {
        Stage::Done
    } else {
        match s {
            Stage::CreateOutput => entered(inputs, 0),
            Stage::OpenInput(i) => Stage::StartEntry(i),
            Stage::StartEntry(i) => Stage::CopyInput(i),
            Stage::CopyInput(i) => entered(inputs, i + 1),
            Stage::Finish => Stage::Done,
            Stage::Done => Stage::Done,
        }
    }
}

/// The error that a failed action of stage `s` is reported as.
pub open spec fn failure(s: Stage, cause: Seq<char>) -> ErrorView {
    match s {
        Stage::CreateOutput => io_error(cause, CREATE_FAILURE@),
        Stage::OpenInput(_) => io_error(cause, OPEN_FAILURE@),
        Stage::CopyInput(_) => io_error(cause, COPY_FAILURE@),
        _ => zip_error(cause),
    }
}

/// The action asked for after the action of stage `s` had outcome `o`.
pub open spec fn next_action(req: RequestView, s: Stage, o: Result<(), Seq<char>>) -> ActionView {
    match o {
        Err(cause) => ActionView::Complete(Err(failure(s, cause))),
        Ok(()) => match s {
            Stage::CreateOutput => entering(req.inputs, 0),
            Stage::OpenInput(i) => ActionView::StartEntry(file_name_of(req.inputs[i as int])->Some_0),
            Stage::StartEntry(_) => ActionView::CopyInput,
            Stage::CopyInput(i) => entering(req.inputs, i + 1),
            _ => ActionView::Complete(Ok(())),
        },
    }
}

/// The stage reached from `s` through actions whose outcomes are `oks`, in
/// order (`true` for success).
pub open spec fn run(inputs: Seq<Seq<char>>, s: Stage, oks: Seq<bool>) -> Stage
    decreases oks.len(),
{
    if oks.len() == 0 {
        s
    } else {
        run(inputs, next_stage(inputs, s, oks[0]), oks.drop_first())
    }
}

/// The stage reached from the start after `m` actions that all succeeded.
pub open spec fn after_successes(inputs: Seq<Seq<char>>, m: nat) -> Stage
    decreases m,
{
    if m == 0 {
        Stage::CreateOutput
    } else {
        next_stage(inputs, after_successes(inputs, (m - 1) as nat), true)
    }
}

/// Once the creation is done, no outcome leads anywhere else: no input is
/// touched and the container is not finalized afterwards.
pub proof fn law_done_is_final(inputs: Seq<Seq<char>>, oks: Seq<bool>)
    ensures
        run(inputs, Stage::Done, oks) == Stage::Done,
    decreases oks.len(),
{
    if oks.len() > 0 {
        law_done_is_final(inputs, oks.drop_first());
    }
}

/// When every step succeeds, the inputs are opened, begun as entries named by
/// their final components and copied one after the other in the order given,
/// each exactly once; after the last one the container is finalized and the
/// creation ends with `Ok`.
pub proof fn law_inputs_become_entries_in_order(req: RequestView, k: int)
    requires
        0 <= k < req.inputs.len() <= usize::MAX,
        forall|j: int| 0 <= j < req.inputs.len() ==> (#[trigger] file_name_of(req.inputs[j])) is Some,
    ensures
        after_successes(req.inputs, (3 * k + 1) as nat) == Stage::OpenInput(k as usize),
        after_successes(req.inputs, (3 * k + 2) as nat) == Stage::StartEntry(k as usize),
        after_successes(req.inputs, (3 * k + 3) as nat) == Stage::CopyInput(k as usize),
        next_action(req, Stage::OpenInput(k as usize), Ok(()))
            == ActionView::StartEntry(file_name_of(req.inputs[k])->Some_0),
        after_successes(req.inputs, (3 * req.inputs.len() + 1) as nat) == Stage::Finish,
        next_action(req, Stage::Finish, Ok(())) == ActionView::Complete(Ok(())),
        after_successes(req.inputs, (3 * req.inputs.len() + 2) as nat) == Stage::Done,
{
    lemma_stages_of_input(req.inputs, k);
    let n = req.inputs.len() as int;
    lemma_stages_of_input(req.inputs, n - 1);
    assert(after_successes(req.inputs, (3 * n + 1) as nat) == next_stage(
        req.inputs,
        after_successes(req.inputs, (3 * n) as nat),
        true,
    ));
}

proof fn lemma_stages_of_input(inputs: Seq<Seq<char>>, k: int)
    requires
        0 <= k < inputs.len() <= usize::MAX,
        forall|j: int| 0 <= j < inputs.len() ==> (#[trigger] file_name_of(inputs[j])) is Some,
    ensures
        after_successes(inputs, (3 * k + 1) as nat) == Stage::OpenInput(k as usize),
        after_successes(inputs, (3 * k + 2) as nat) == Stage::StartEntry(k as usize),
        after_successes(inputs, (3 * k + 3) as nat) == Stage::CopyInput(k as usize),
    decreases k,
{
    if k == 0 {
        assert(after_successes(inputs, 1) == next_stage(inputs, after_successes(inputs, 0), true));
        assert(file_name_of(inputs[0]) is Some);
    } else {
        lemma_stages_of_input(inputs, k - 1);
        assert(file_name_of(inputs[k]) is Some);
        assert(after_successes(inputs, (3 * k + 1) as nat) == next_stage(
            inputs,
            after_successes(inputs, (3 * (k - 1) + 3) as nat),
            true,
        ));
    }
    assert(after_successes(inputs, (3 * k + 2) as nat) == next_stage(
        inputs,
        after_successes(inputs, (3 * k + 1) as nat),
        true,
    ));
    assert(after_successes(inputs, (3 * k + 3) as nat) == next_stage(
        inputs,
        after_successes(inputs, (3 * k + 2) as nat),
        true,
    ));
}

/// An input that cannot be opened ends the creation with an I/O error (exit
/// code 2); whatever the later outcomes, no later input is opened or written
/// and the container is not finalized.
pub proof fn law_unopenable_input_ends_creation(
    req: RequestView,
    i: usize,
    cause: Seq<char>,
    oks: Seq<bool>,
)
    requires
        i < req.inputs.len(),
    ensures
        next_action(req, Stage::OpenInput(i), Err(cause))
            == ActionView::Complete(Err(io_error(cause, OPEN_FAILURE@))),
        exit_code_of(io_error(cause, OPEN_FAILURE@).kind) == 2,
        run(req.inputs, Stage::OpenInput(i), seq![false] + oks) == Stage::Done,
{
    law_done_is_final(req.inputs, oks);
    assert((seq![false] + oks).drop_first() =~= oks);
}

/// An output file that cannot be created ends the creation with an I/O error
/// (exit code 2) before any input is opened: whatever the later outcomes, no
/// stage that touches an input is reached.
pub proof fn law_uncreatable_output_ends_creation(req: RequestView, cause: Seq<char>, oks: Seq<bool>)
    ensures
        next_action(req, Stage::CreateOutput, Err(cause))
            == ActionView::Complete(Err(io_error(cause, CREATE_FAILURE@))),
        exit_code_of(io_error(cause, CREATE_FAILURE@).kind) == 2,
        run(req.inputs, Stage::CreateOutput, seq![false] + oks) == Stage::Done,
{
    law_done_is_final(req.inputs, oks);
    assert((seq![false] + oks).drop_first() =~= oks);
}

/// The creation of one archive, from the request to its last action.
pub struct Creation {
    request: CreateArchive,
    stage: Stage,
    entry_name: String,
}

impl Creation {
    /// The request being carried out.
    pub closed spec fn request(&self) -> RequestView {
        self.request@
    }

    /// The stage reached.
    pub closed spec fn stage(&self) -> Stage {
        self.stage
    }

    /// Every index in the stage is one of an input, and the entry name kept is that of the input being added.
    pub closed spec fn wf(&self) -> bool {
        &&& match self.stage {
            Stage::OpenInput(i) | Stage::StartEntry(i) => {
                &&& i < self.request@.inputs.len()
                &&& file_name_of(self.request@.inputs[i as int]) == Some(self.entry_name@)
            },
            Stage::CopyInput(i) => i < self.request@.inputs.len(),
            _ => true,
        }
    }

    /// Begins the creation: the first action creates the output file, before
    /// any input is touched.
    pub fn start(request: CreateArchive) -> (r: (Creation, Action))
        ensures
            r.0.wf(),
            r.0.request() == request@,
            r.0.stage() == Stage::CreateOutput,
            r.1@ == ActionView::CreateOutput(request@.output),
    {
        let output = String::from_str(request.output());
        (Creation { request, stage: Stage::CreateOutput, entry_name: String::new() }, Action::CreateOutput(output))
    }

    /// Whether the creation has ended; no action may be asked for after that.
    pub fn is_done(&self) -> (r: bool)
        ensures
            r == (self.stage() == Stage::Done),
    {
        match self.stage {
            Stage::Done => true,
            _ => false,
        }
    }

    /// Moves to the input with index `j`.
    fn enter(&mut self, j: usize) -> (r: Action)
        requires
            j <= old(self).request@.inputs.len(),
        ensures
            final(self).wf(),
            final(self).request == old(self).request,
            final(self).stage == entered(old(self).request@.inputs, j as int),
            r@ == entering(old(self).request@.inputs, j as int),
    {
        proof {
            reveal_strlit("Unable to derive an entry name from source file path");
        }
        let inputs = self.request.inputs();
        if j < inputs.len() {
            let path = inputs[j].clone();
            proof {
                assert(path@ == self.request@.inputs[j as int]);
            }
            match base_name(path.as_str()) {
                Some(name) => {
                    self.entry_name = name;
                    self.stage = Stage::OpenInput(j);
                    Action::OpenInput(path)
                },
                None => {
                    self.stage = Stage::Done;
                    Action::Complete(Err(Error::io(path, NAME_FAILURE)))
                },
            }
        } else {
            self.stage = Stage::Finish;
            Action::Finish
        }
    }

    /// Takes the outcome of the action last asked for and returns the next
    /// one. A failure ends the creation at once with its error; success of the
    /// finalization ends it with `Ok`.
    pub fn advance(&mut self, outcome: Result<(), String>) -> (r: Action)
        requires
            old(self).wf(),
            old(self).stage() != Stage::Done,
        ensures
            final(self).wf(),
            final(self).request() == old(self).request(),
            final(self).stage() == next_stage(old(self).request().inputs, old(self).stage(), outcome is Ok),
            r@ == next_action(old(self).request(), old(self).stage(), outcome_view(outcome)),
    {
        proof {
            reveal_strlit("Unable to create zip file");
            reveal_strlit("Unable to open source file");
            reveal_strlit("An error occurred while copying files");
        }
        match outcome {
            Err(cause) => {
                let e = match self.stage {
                    Stage::CreateOutput => Error::io(cause, CREATE_FAILURE),
                    Stage::OpenInput(_) => Error::io(cause, OPEN_FAILURE),
                    Stage::CopyInput(_) => Error::io(cause, COPY_FAILURE),
                    _ => Error::zip(cause),
                };
                self.stage = Stage::Done;
                Action::Complete(Err(e))
            },
            Ok(()) => match self.stage {
                Stage::CreateOutput => self.enter(0),
                Stage::OpenInput(i) => {
                    self.stage = Stage::StartEntry(i);
                    Action::StartEntry(self.entry_name.clone())
                },
                Stage::StartEntry(i) => {
                    self.stage = Stage::CopyInput(i);
                    Action::CopyInput
                },
                Stage::CopyInput(i) => {
                    let count = self.request.inputs().len();
                    assert(i < count);
                    self.enter(i + 1)
                },
                _ => {
                    self.stage = Stage::Done;
                    Action::Complete(Ok(()))
                },
            },
        }
    }
}

} // verus!
