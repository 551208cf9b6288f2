use vstd::prelude::*;
use crate::error::PrintError;
use crate::session::{Resource, StepOutcome};

verus! {

/// The character is an ASCII decimal digit.
pub open spec fn is_digit(c: char) -> bool {
    '0' <= c && c <= '9'
}

/// Value of a run of decimal digits.
pub open spec fn digits_value(s: Seq<char>) -> int
    decreases s.len(),
{
    if s.len() == 0 {
        0
    } else {
        digits_value(s.drop_last()) * 10 + (s.last() as int - '0' as int)
    }
}

/// Every character is a decimal digit.
pub open spec fn all_digits(s: Seq<char>) -> bool {
    forall|i: int| 0 <= i < s.len() ==> is_digit(#[trigger] s[i])
}

/// The text after a leading sign, if there is one.
pub open spec fn unsigned_part(s: Seq<char>) -> Seq<char> {
    if s.len() > 0 && (s[0] == '-' || s[0] == '+') {
        s.drop_first()
    } else {
        s
    }
}

/// A decimal integer: an optional sign, then one or more digits.
pub open spec fn decimal_value(s: Seq<char>) -> Option<int> {
    let negative = s.len() > 0 && s[0] == '-';
    let body = unsigned_part(s);
    if body.len() > 0 && all_digits(body) {
        Some(
            if negative {
                -digits_value(body)
            } else {
                digits_value(body)
            },
        )
    } else {
        None
    }
}

/// The text as an `i32`, if it is a decimal integer in range.
pub open spec fn i32_value(s: Seq<char>) -> Option<int> {
    match decimal_value(s) {
        Some(v) => if i32::MIN <= v && v <= i32::MAX {
            Some(v)
        } else {
            None
        },
        None => None,
    }
}

/// Relies on `str::parse::<i32>`: an optional `+` or `-` sign followed by
/// decimal digits, within the range of `i32`; anything else is an error.
#[verifier::external_body]
fn parse_i32(s: &str) -> (r: Option<i32>)
    ensures
        r is Some <==> i32_value(s@) is Some,
        r is Some ==> r->0 == i32_value(s@)->0,
{
    s.parse::<i32>().ok()
}

/// Option key for the number of copies.
pub open spec fn copies_key() -> Seq<char> {
    "copies"@
}

/// Option key for the data type of the document.
pub open spec fn format_key() -> Seq<char> {
    "document-format"@
}

/// Number of copies the options ask for: each `copies` option with a
/// positive value replaces the count so far; other values leave it; the
/// count starts at one.
pub open spec fn resolved_copies(options: Seq<(String, String)>) -> int
    decreases options.len(),
{
    if options.len() == 0 {
        1
    } else {
        let (k, v) = options.last();
        let prev = resolved_copies(options.drop_last());
        if k@ == copies_key() && i32_value(v@) is Some && i32_value(v@)->0 > 0 {
            i32_value(v@)->0
        } else {
            prev
        }
    }
}

/// Data type the options ask for: the last `document-format` value, `RAW`
/// when there is none.
pub open spec fn resolved_data_type(options: Seq<(String, String)>) -> Seq<char>
    decreases options.len(),
{
    if options.len() == 0 {
        "RAW"@
    } else {
        let (k, v) = options.last();
        if k@ == format_key() {
            v@
        } else {
            resolved_data_type(options.drop_last())
        }
    }
}

/// The options of a raw print job, resolved.
pub struct RawOptions {
    pub copies: u32,
    pub data_type: String,
}

/// Resolves the `copies` and `document-format` options; other keys are
/// ignored, and a malformed or non-positive copy count falls back rather
/// than failing.
pub fn parse_options(options: &Vec<(String, String)>) -> (r: RawOptions)
    ensures
        r.copies == resolved_copies(options@),
        r.data_type@ == resolved_data_type(options@),
        r.copies >= 1,
{
    let copies_name = "copies".to_owned();
    let format_name = "document-format".to_owned();
    proof {
        reveal_strlit("copies");
        reveal_strlit("document-format");
        reveal_strlit("RAW");
        assert(copies_key().len() != format_key().len());
    }
    let mut copies: u32 = 1;
    let mut data_type = "RAW".to_owned();
    let mut i: usize = 0;
    while i < options.len()
        invariant
            0 <= i <= options.len(),
            copies_name@ == copies_key(),
            format_name@ == format_key(),
            copies_key() != format_key(),
            copies as int == resolved_copies(options@.subrange(0, i as int)),
            copies >= 1,
            data_type@ == resolved_data_type(options@.subrange(0, i as int)),
        decreases options.len() - i,
    {
        let (k, v) = &options[i];
        proof {
            assert(options@.subrange(0, i + 1).drop_last() =~= options@.subrange(0, i as int));
            assert(options@.subrange(0, i + 1).last() == options@[i as int]);
        }
        if *k == copies_name {
            match parse_i32(v.as_str()) {
                Some(n) => {
                    if n > 0 {
                        copies = n as u32;
                    }
                },
                None => {},
            }
        } else if *k == format_name {
            data_type = v.clone();
        }
        i = i + 1;
    }
    proof {
        assert(options@.subrange(0, options@.len() as int) =~= options@);
    }
    (RawOptions { copies, data_type })
}

/// Number of resources the raw pipeline can hold at once.
pub const RAW_LEVELS: u8 = 3;

/// The resource at a given nesting level of the raw pipeline.
pub open spec fn raw_level(i: int) -> Resource {
    if i == 0 {
        Resource::Session
    } else if i == 1 {
        Resource::Document
    } else {
        Resource::Page
    }
}

fn raw_resource_at(i: u8) -> (r: Resource)
    requires
        i < RAW_LEVELS,
    ensures
        r == raw_level(i as int),
{
    match i {
        0 => Resource::Session,
        1 => Resource::Document,
        _ => Resource::Page,
    }
}

/// An action the raw pipeline asks the caller to perform.
#[derive(Clone, Copy, Debug, PartialEq, Eq)]
pub enum RawAction {
    /// Open the spooler handle of the device.
    OpenSession,
    /// Start the document under the job name and resolved data type.
    StartDocument,
    /// Start a page.
    StartPage,
    /// Write the whole payload to the page.
    WriteBytes,
    /// Release a resource.
    Release(Resource),
    /// The operation is over, with this result.
    Finish(Result<u64, PrintError>),
}

/// Where the raw pipeline stands: which action's outcome it awaits.
#[derive(Clone, Copy, Debug, PartialEq, Eq, Structural)]
pub enum RawStage {
    Start,
    AwaitOpen,
    AwaitDocument,
    AwaitPage,
    AwaitWrite,
    AfterPage,
    Unwind,
    Finished,
}

/// The decision state of one raw print job: the payload is written once for
/// each of `copies` pages of one document.
#[derive(Clone, Copy, Debug, PartialEq, Eq)]
pub struct RawJob {
    pub copies: u32,
    pub stage: RawStage,
    /// Number of resources held; they are `raw_level(0 .. depth)`.
    pub depth: u8,
    /// Copies attempted so far, whether or not their page could start.
    pub copies_done: u32,
    pub job_id: u64,
    pub result: Result<u64, PrintError>,
}

impl RawJob {
    /// The state is one the pipeline can reach.
    pub open spec fn wf(self) -> bool {
        &&& self.depth <= RAW_LEVELS
        &&& self.copies_done <= self.copies
        &&& match self.stage {
            RawStage::Start | RawStage::AwaitOpen | RawStage::Finished => self.depth == 0,
            RawStage::AwaitDocument => self.depth == 1,
            RawStage::AwaitPage => self.depth == 2 && self.copies_done < self.copies,
            RawStage::AwaitWrite => self.depth == 3 && self.copies_done < self.copies,
            RawStage::AfterPage => self.depth == 2,
            RawStage::Unwind => true,
        }
        &&& (self.depth >= 2 ==> self.job_id != 0)
        &&& (self.result is Ok ==> self.copies_done == self.copies && self.job_id != 0
            && self.result->Ok_0 == self.job_id)
    }

    /// The state of a job that has not asked for anything yet.
    pub open spec fn initial(copies: u32) -> RawJob {
        RawJob {
            copies,
            stage: RawStage::Start,
            depth: 0,
            copies_done: 0,
            job_id: 0,
            result: Err(PrintError::UnderlyingCallFailed),
        }
    }

    /// Release the innermost resource, or finish once none is held.
    pub open spec fn unwind_step(self) -> (RawJob, RawAction) {
        if self.depth > 0 {
            (
                RawJob { depth: (self.depth - 1) as u8, stage: RawStage::Unwind, ..self },
                RawAction::Release(raw_level(self.depth - 1)),
            )
        } else {
            (RawJob { stage: RawStage::Finished, ..self }, RawAction::Finish(self.result))
        }
    }

    /// Start the next copy, or end the document when all copies are done.
    pub open spec fn next_copy_step(self) -> (RawJob, RawAction) {
        if self.copies_done < self.copies {
            (RawJob { stage: RawStage::AwaitPage, ..self }, RawAction::StartPage)
        } else {
            RawJob { result: Ok(self.job_id), ..self }.unwind_step()
        }
    }

    /// The next state and action, given the outcome of the last action.
    pub open spec fn next(self, o: StepOutcome) -> (RawJob, RawAction) {
        match self.stage {
            RawStage::Start => (
                RawJob { stage: RawStage::AwaitOpen, ..self },
                RawAction::OpenSession,
            ),
            RawStage::AwaitOpen => if o is Failed {
                RawJob { result: Err(PrintError::SessionAcquisitionFailed), ..self }.unwind_step()
            } else {
                (
                    RawJob { stage: RawStage::AwaitDocument, depth: 1, ..self },
                    RawAction::StartDocument,
                )
            },
            RawStage::AwaitDocument => match o {
                StepOutcome::JobId(id) => if id != 0 {
                    RawJob { job_id: id, depth: 2, ..self }.next_copy_step()
                } else {
                    RawJob { result: Err(PrintError::DocumentStartFailed), ..self }.unwind_step()
                },
                _ => RawJob { result: Err(PrintError::DocumentStartFailed), ..self }.unwind_step(),
            },
            RawStage::AwaitPage => if o is Failed {
                RawJob { copies_done: (self.copies_done + 1) as u32, ..self }.next_copy_step()
            } else {
                (RawJob { stage: RawStage::AwaitWrite, depth: 3, ..self }, RawAction::WriteBytes)
            },
            RawStage::AwaitWrite => (
                RawJob {
                    stage: RawStage::AfterPage,
                    depth: 2,
                    copies_done: (self.copies_done + 1) as u32,
                    ..self
                },
                RawAction::Release(Resource::Page),
            ),
            RawStage::AfterPage => self.next_copy_step(),
            RawStage::Unwind => self.unwind_step(),
            RawStage::Finished => (self, RawAction::Finish(self.result)),
        }
    }

    /// A job that writes the payload `copies` times.
    pub fn new(copies: u32) -> (r: RawJob)
        ensures
            r == RawJob::initial(copies),
            r.wf(),
    {
        RawJob {
            copies,
            stage: RawStage::Start,
            depth: 0,
            copies_done: 0,
            job_id: 0,
            result: Err(PrintError::UnderlyingCallFailed),
        }
    }

    fn unwind(&mut self) -> (a: RawAction)
        requires
            old(self).depth <= RAW_LEVELS,
        ensures
            (*final(self), a) == old(self).unwind_step(),
    {
        if self.depth > 0 {
            self.depth = self.depth - 1;
            self.stage = RawStage::Unwind;
            RawAction::Release(raw_resource_at(self.depth))
        } else {
            self.stage = RawStage::Finished;
            RawAction::Finish(self.result)
        }
    }

    fn next_copy(&mut self) -> (a: RawAction)
        requires
            old(self).depth <= RAW_LEVELS,
        ensures
            (*final(self), a) == old(self).next_copy_step(),
    {
        if self.copies_done < self.copies {
            self.stage = RawStage::AwaitPage;
            RawAction::StartPage
        } else {
            self.result = Ok(self.job_id);
            self.unwind()
        }
    }

    /// Takes the outcome of the last action performed and returns the next
    /// action. The first call's outcome is ignored; after `Finish` the job
    /// keeps answering `Finish` with the same result.
    pub fn step(&mut self, o: StepOutcome) -> (a: RawAction)
        requires
            old(self).wf(),
        ensures
            (*final(self), a) == old(self).next(o),
            final(self).wf(),
    {
        match self.stage {
            RawStage::Start => {
                self.stage = RawStage::AwaitOpen;
                RawAction::OpenSession
            },
            RawStage::AwaitOpen => {
                if o == StepOutcome::Failed {
                    self.result = Err(PrintError::SessionAcquisitionFailed);
                    self.unwind()
                } else {
                    self.stage = RawStage::AwaitDocument;
                    self.depth = 1;
                    RawAction::StartDocument
                }
            },
            RawStage::AwaitDocument => {
                match o {
                    StepOutcome::JobId(id) => {
                        if id != 0 {
                            self.job_id = id;
                            self.depth = 2;
                            self.next_copy()
                        } else {
                            self.result = Err(PrintError::DocumentStartFailed);
                            self.unwind()
                        }
                    },
                    _ => {
                        self.result = Err(PrintError::DocumentStartFailed);
                        self.unwind()
                    },
                }
            },
            RawStage::AwaitPage => {
                if o == StepOutcome::Failed {
                    self.copies_done = self.copies_done + 1;
                    self.next_copy()
                } else {
                    self.stage = RawStage::AwaitWrite;
                    self.depth = 3;
                    RawAction::WriteBytes
                }
            },
            RawStage::AwaitWrite => {
                self.stage = RawStage::AfterPage;
                self.depth = 2;
                self.copies_done = self.copies_done + 1;
                RawAction::Release(Resource::Page)
            },
            RawStage::AfterPage => self.next_copy(),
            RawStage::Unwind => self.unwind(),
            RawStage::Finished => RawAction::Finish(self.result),
        }
    }
}

/// Every release the raw pipeline asks for is of the innermost resource
/// held, and it finishes only once nothing is held.
pub proof fn lemma_raw_releases_innermost_first(s: RawJob, o: StepOutcome)
    requires
        s.wf(),
    ensures
        s.next(o).1 is Release ==> s.next(o).0.depth < RAW_LEVELS && s.next(o).1->Release_0
            == raw_level(s.next(o).0.depth as int),
        s.next(o).1 is Finish ==> s.next(o).0.depth == 0 && s.depth == 0,
{
}

/// A copy whose page cannot start does not end the job: the next copy is
/// attempted, or the document ends once every copy was attempted.
pub proof fn lemma_raw_failed_copy_continues(s: RawJob)
    requires
        s.wf(),
        s.stage == RawStage::AwaitPage,
    ensures
        s.copies_done + 1 < s.copies ==> s.next(StepOutcome::Failed).1 == RawAction::StartPage,
        s.copies_done + 1 == s.copies ==> s.next(StepOutcome::Failed).1 == RawAction::Release(
            Resource::Document,
        ) && s.next(StepOutcome::Failed).0.result == Ok::<u64, PrintError>(s.job_id),
{
}

/// The raw pipeline reports success only with the document's job id and only
/// after every copy was attempted.
pub proof fn lemma_raw_success_after_all_copies(s: RawJob, o: StepOutcome)
    requires
        s.wf(),
        s.next(o).1 is Finish,
        s.next(o).1->Finish_0 is Ok,
    ensures
        s.copies_done == s.copies,
        s.job_id != 0,
        s.next(o).1->Finish_0->Ok_0 == s.job_id,
{
}

} // verus!
