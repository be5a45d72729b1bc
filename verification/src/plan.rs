//! Plans: the steps that a caller performs on the disk and the network, in
//! order, and what an operation comes to once all of them have succeeded.
//!
//! The library hands the steps out one at a time. The caller performs each and
//! reports how it went; the library says what comes next. The first step that
//! fails ends the operation, and what earlier steps wrote stays.

use vstd::prelude::*;

verus! {

/// How performing a step went wrong.
#[derive(Clone, Copy, Debug, PartialEq, Eq)]
pub enum Fault {
    /// The value to write could not be put into its file format.
    Encoding,
    /// The disk or the network refused.
    Transfer,
}

/// One thing to do outside the library.
#[derive(Debug, PartialEq, Eq)]
pub enum Step {
    /// Emit a warning.
    Warn { message: String },
    /// Create the directory and its missing ancestors, unless it exists.
    EnsureDirectory { path: String },
    /// Write the body of the post, replacing the file.
    WriteContent { path: String, text: String },
    /// Write the metadata of the post in its file format, replacing the file.
    WriteMetadata { path: String },
    /// Write the rendered page, replacing the file.
    WritePage { path: String, html: String },
    /// Copy a directory of assets with everything below it.
    CopyImages { from: String, to: String },
    /// Copy one file, replacing the target.
    CopyFile { from: String, to: String },
    /// Ask the image search: `GET` the endpoint with the key in the header
    /// `Authorization` and with the parameters `query` and `per_page`.
    Search { endpoint: String, authorization: String, query: String, per_page: String },
    /// Fetch the bytes behind `url` and write them to the file `to`.
    Download { url: String, to: String },
    /// Write the descriptor of the picture at position `picture` of the search
    /// result, in its file format, replacing the file.
    WriteSidecar { path: String, picture: usize },
}

/// A step as a mathematical value.
pub enum StepView {
    Warn { message: Seq<char> },
    EnsureDirectory { path: Seq<char> },
    WriteContent { path: Seq<char>, text: Seq<char> },
    WriteMetadata { path: Seq<char> },
    WritePage { path: Seq<char>, html: Seq<char> },
    CopyImages { from: Seq<char>, to: Seq<char> },
    CopyFile { from: Seq<char>, to: Seq<char> },
    Search {
        endpoint: Seq<char>,
        authorization: Seq<char>,
        query: Seq<char>,
        per_page: Seq<char>,
    },
    Download { url: Seq<char>, to: Seq<char> },
    WriteSidecar { path: Seq<char>, picture: nat },
}

impl View for Step {
    type V = StepView;

    open spec fn view(&self) -> StepView {
        match *self {
            Step::Warn { message } => StepView::Warn { message: message@ },
            Step::EnsureDirectory { path } => StepView::EnsureDirectory { path: path@ },
            Step::WriteContent { path, text } => StepView::WriteContent {
                path: path@,
                text: text@,
            },
            Step::WriteMetadata { path } => StepView::WriteMetadata { path: path@ },
            Step::WritePage { path, html } => StepView::WritePage { path: path@, html: html@ },
            Step::CopyImages { from, to } => StepView::CopyImages { from: from@, to: to@ },
            Step::CopyFile { from, to } => StepView::CopyFile { from: from@, to: to@ },
            Step::Search { endpoint, authorization, query, per_page } => StepView::Search {
                endpoint: endpoint@,
                authorization: authorization@,
                query: query@,
                per_page: per_page@,
            },
            Step::Download { url, to } => StepView::Download { url: url@, to: to@ },
            Step::WriteSidecar { path, picture } => StepView::WriteSidecar {
                path: path@,
                picture: picture as nat,
            },
        }
    }
}

impl DeepView for Step {
    type V = StepView;

    open spec fn deep_view(&self) -> StepView {
        self@
    }
}

/// What stands in front of the cause when a step fails.
pub open spec fn failure_prefix(step: StepView, fault: Fault) -> Seq<char> {
    match step {
        StepView::EnsureDirectory { .. } => "Failed to create directory: "@,
        StepView::WriteContent { .. } => "Failed to write content file: "@,
        StepView::WriteMetadata { .. } => match fault {
            Fault::Encoding => "Failed to serialize metadata: "@,
            Fault::Transfer => "Failed to write metadata file: "@,
        },
        StepView::WritePage { .. } => "Failed to write output file: "@,
        StepView::CopyImages { .. } => "Failed to copy images folder: "@,
        _ => Seq::empty(),
    }
}

/// The message of a step that failed for the given cause.
pub open spec fn failure_text(step: StepView, fault: Fault, cause: Seq<char>) -> Seq<char> {
    failure_prefix(step, fault) + cause
}

impl Step {
    /// The message to report when performing this step failed: the cause as
    /// the outside world worded it, behind a prefix that names the step.
    pub fn failure(&self, fault: Fault, cause: &str) -> (r: String)
        ensures
            r@ == failure_text(self@, fault, cause@),
    {
        let prefix = match self {
            Step::EnsureDirectory { .. } => "Failed to create directory: ",
            Step::WriteContent { .. } => "Failed to write content file: ",
            Step::WriteMetadata { .. } => match fault {
                Fault::Encoding => "Failed to serialize metadata: ",
                Fault::Transfer => "Failed to write metadata file: ",
            },
            Step::WritePage { .. } => "Failed to write output file: ",
            Step::CopyImages { .. } => "Failed to copy images folder: ",
            _ => {
                proof {
                    reveal_strlit("");
                }
                ""
            },
        };
        let mut r = prefix.to_owned();
        r.append(cause);
        r
    }
}

/// Why a step could not be performed.
#[derive(Debug, PartialEq, Eq)]
pub struct Failure {
    pub fault: Fault,
    /// The cause, in the words of the outside world.
    pub cause: String,
}

/// What the caller does next.
#[derive(Debug, PartialEq, Eq)]
pub enum Action {
    /// Perform the step at this position of the plan, and report how it went.
    Perform { step: usize },
    /// Nothing more: the operation has ended with this result.
    Finish { result: Result<(), String> },
}

/// [`Action`] as a mathematical value.
pub enum ActionView {
    Perform { step: nat },
    Finish { result: Result<(), Seq<char>> },
}

impl View for Action {
    type V = ActionView;

    open spec fn view(&self) -> ActionView {
        match *self {
            Action::Perform { step } => ActionView::Perform { step: step as nat },
            Action::Finish { result } => ActionView::Finish { result: outcome_view(result) },
        }
    }
}

/// How the step that was handed out last went, with the cause as a sequence
/// of characters; `None` before any step has been handed out.
pub open spec fn report_view(last: Option<Result<(), Failure>>) -> Option<
    Result<(), (Fault, Seq<char>)>,
> {
    match last {
        None => None,
        Some(Ok(_)) => Some(Ok(())),
        Some(Err(failure)) => Some(Err((failure.fault, failure.cause@))),
    }
}

/// The steps of an operation, and its result once every step has succeeded.
/// The first step that fails ends the operation with that step's message;
/// what earlier steps wrote stays.
#[derive(Debug, PartialEq, Eq)]
pub struct Plan {
    pub steps: Vec<Step>,
    pub outcome: Result<(), String>,
}

/// A plan as a mathematical value.
pub struct PlanView {
    pub steps: Seq<StepView>,
    pub outcome: Result<(), Seq<char>>,
}

/// A result whose error is a text, with the text as a sequence of characters.
pub open spec fn outcome_view(outcome: Result<(), String>) -> Result<(), Seq<char>> {
    match outcome {
        Ok(_) => Ok(()),
        Err(message) => Err(message@),
    }
}

impl View for Plan {
    type V = PlanView;

    open spec fn view(&self) -> PlanView {
        PlanView { steps: self.steps.deep_view(), outcome: outcome_view(self.outcome) }
    }
}

/// What comes next in a plan of which `handed` steps have been handed out,
/// and how many steps have been handed out after that. A failure of the last
/// step ends the operation with the message of that step. Otherwise the next
/// step is handed out, or, behind the last step, the operation ends with the
/// outcome of the plan.
pub open spec fn next_action(
    plan: PlanView,
    handed: nat,
    last: Option<Result<(), (Fault, Seq<char>)>>,
) -> (nat, ActionView) {
    match last {
        Some(Err((fault, cause))) => (
            handed,
            ActionView::Finish {
                result: Err(
                    if 0 < handed <= plan.steps.len() {
                        failure_text(plan.steps[handed - 1], fault, cause)
                    } else {
                        cause
                    },
                ),
            },
        ),
        _ => if handed < plan.steps.len() {
            (handed + 1, ActionView::Perform { step: handed })
        } else {
            (handed, ActionView::Finish { result: plan.outcome })
        },
    }
}

impl Plan {
    /// Says what comes next. `handed` is the number of steps that have been
    /// handed out so far, and `last` how the last of them went (`None` at the
    /// start). The result is the number of steps handed out after this call,
    /// and what to do.
    pub fn advance(&self, handed: usize, last: Option<Result<(), Failure>>) -> (r: (usize, Action))
        ensures
            (r.0 as nat, r.1@) == next_action(self@, handed as nat, report_view(last)),
    {
        match last {
            Some(Err(failure)) => {
                let message = if 0 < handed && handed <= self.steps.len() {
                    self.steps[handed - 1].failure(failure.fault, failure.cause.as_str())
                } else {
                    failure.cause
                };
                (handed, Action::Finish { result: Err(message) })
            },
            _ => {
                if handed < self.steps.len() {
                    (handed + 1, Action::Perform { step: handed })
                } else {
                    let result = match &self.outcome {
                        Ok(_) => Ok(()),
                        Err(message) => Err(message.clone()),
                    };
                    (handed, Action::Finish { result })
                }
            },
        }
    }
}

/// A plan whose steps all succeed hands each of them out, in order, and ends
/// with its outcome. A plan whose step at position `failing` is the first to
/// fail hands out the steps up to that one and ends with its message: no
/// later step is handed out.
pub proof fn lemma_first_failure_ends_the_plan(
    plan: PlanView,
    failing: nat,
    fault: Fault,
    cause: Seq<char>,
)
    ensures
        plan.steps.len() > 0 ==> next_action(plan, 0, None) == (
            1nat,
            ActionView::Perform { step: 0 },
        ),
        forall|handed: nat|
            0 < handed < plan.steps.len() ==> #[trigger] next_action(plan, handed, Some(Ok(())))
                == ((handed + 1) as nat, ActionView::Perform { step: handed }),
        next_action(plan, plan.steps.len(), if plan.steps.len() == 0 {
            None
        } else {
            Some(Ok(()))
        }) == (plan.steps.len(), ActionView::Finish { result: plan.outcome }),
        failing < plan.steps.len() ==> next_action(
            plan,
            failing + 1,
            Some(Err((fault, cause))),
        ) == (
            failing + 1,
            ActionView::Finish { result: Err(failure_text(plan.steps[failing as int], fault, cause)) },
        ),
{
}

} // verus!
