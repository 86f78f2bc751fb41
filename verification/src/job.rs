//! A print job on a CUPS destination, as a state machine.
//!
//! The job first checks each requested option with the destination and adds it, then creates
//! the job, uploads each document in chunks that pass through it from the reader to CUPS, and
//! closes the job to start printing. Every call
//! into CUPS is an action that the caller performs; its outcome comes back as an event. A job
//! that was created and then fails is cancelled before the failure is reported.
use vstd::prelude::*;

use crate::consts;
use crate::decimal::{digits, is_digit_char, lemma_digits_are_digits, lemma_digits_injective, push_digits};
use crate::dest::CupsDestinations;
use crate::error::{backend_error, backend_error_view, PrintError, PrintErrorOf, PrintErrorView};
use crate::options::{
    cups_option_requests, has_no_nul, lemma_option_requests_have_no_nul, option_requests,
    requests_have_no_nul, requests_view, OptionRequest, PrintOptions, RequestView,
};

verus! {

/// The title of every print job.
pub const JOB_TITLE: &'static str = "printrs";

/// Where a print job stands, over a type `E` of errors and a type `B` of byte chunks.
#[derive(Debug)]
pub enum JobPhase<E, B> {
    /// The option request at `index` is to be checked with the destination.
    CheckOption { index: usize },
    /// The option request at `index` was supported and is to be added to the job's options.
    AddOption { index: usize },
    /// The job is to be created.
    CreateJob,
    /// The upload of a document is to be started.
    StartDocument { document: usize },
    /// The next chunk of a document is to be read.
    ReadChunk { document: usize },
    /// The chunk `data` just read from a document is to be written to CUPS.
    WriteChunk { document: usize, data: B },
    /// The upload of a document is to be finished.
    FinishDocument { document: usize },
    /// The job is to be closed, which starts printing.
    CloseJob,
    /// The job failed with `error` and is to be cancelled.
    CancelJob { error: E },
    /// The job is over: printed, or failed; `cancel_error` is the error of a failed cancellation.
    Finished { result: Result<(), E>, cancel_error: Option<E> },
}

/// The outcome of a CUPS call that a print job asked for, over a type `S` of text and a type
/// `B` of byte chunks.
#[derive(Debug)]
pub enum PrintEventOf<S, B> {
    /// The destination answered whether it supports the option (a CUPS boolean).
    OptionChecked { supported: i32 },
    /// The option was added to the job's options.
    OptionAdded,
    /// CUPS answered the creation of the job with a status and a job ID.
    JobCreated { status: i32, job_id: i32, last_error: Option<S> },
    /// CUPS answered the start of a document upload.
    DocumentStarted { status: i32, last_error: Option<S> },
    /// A chunk of the document was read: its bytes (none at the end of the document), or why
    /// reading failed.
    ChunkRead { result: Result<B, S> },
    /// CUPS answered the write of a chunk.
    ChunkWritten { status: i32, last_error: Option<S> },
    /// CUPS answered the end of a document upload.
    DocumentFinished { status: i32, last_error: Option<S> },
    /// CUPS answered the closing of the job.
    JobClosed { status: i32, last_error: Option<S> },
    /// CUPS answered the cancellation of the job.
    JobCancelled { status: i32, last_error: Option<S> },
}

/// The outcome of a CUPS call.
pub type PrintEvent = PrintEventOf<String, Vec<u8>>;

/// What a print job asks its caller to do next, over types `S` of text, `E` of errors and `B`
/// of byte chunks.
#[derive(Debug)]
pub enum PrintActionOf<S, E, B> {
    /// Check with the destination whether it supports this option.
    CheckOption { name: S, value: S },
    /// Add this option to the job's options.
    AddOption { name: S, value: S },
    /// Create the job with this title.
    CreateJob { title: S },
    /// Start the upload of a document of the job under this file name, in this document format,
    /// with this CUPS boolean that says whether it is the job's last document.
    StartDocument { document: usize, job_id: i32, file_name: S, format: S, last_document: i32 },
    /// Read the next chunk of a document.
    ReadChunk { document: usize },
    /// Write this chunk of a document, just read, to CUPS.
    WriteChunk { document: usize, data: B },
    /// Finish the upload of a document.
    FinishDocument { document: usize },
    /// Close the job, which starts printing.
    CloseJob { job_id: i32 },
    /// Cancel the job.
    CancelJob { job_id: i32 },
    /// Nothing more to do; report the result, and the error of a failed cancellation.
    Finished { result: Result<(), E>, cancel_error: Option<E> },
}

/// What a print job asks its caller to do next.
pub type PrintAction = PrintActionOf<String, PrintError, Vec<u8>>;

/// The specification model of a phase.
pub type PhaseView = JobPhase<PrintErrorView, Seq<u8>>;

/// The specification model of an event.
pub type EventView = PrintEventOf<Seq<char>, Seq<u8>>;

/// The specification model of an action.
pub type ActionView = PrintActionOf<Seq<char>, PrintErrorView, Seq<u8>>;

/// The specification model of an optional text.
pub open spec fn opt_view(o: Option<String>) -> Option<Seq<char>> {
    match o {
        Some(s) => Some(s@),
        None => None,
    }
}

/// The specification model of an optional error.
pub open spec fn opt_error_view(o: Option<PrintError>) -> Option<PrintErrorView> {
    match o {
        Some(e) => Some(e@),
        None => None,
    }
}

/// The specification model of the result of a job.
pub open spec fn result_view(r: Result<(), PrintError>) -> Result<(), PrintErrorView> {
    match r {
        Ok(()) => Ok(()),
        Err(e) => Err(e@),
    }
}

impl View for PrintEventOf<String, Vec<u8>> {
    type V = EventView;

    open spec fn view(&self) -> EventView {
        match self {
            PrintEventOf::OptionChecked { supported } => PrintEventOf::OptionChecked {
                supported: *supported,
            },
            PrintEventOf::OptionAdded => PrintEventOf::OptionAdded,
            PrintEventOf::JobCreated { status, job_id, last_error } => PrintEventOf::JobCreated {
                status: *status,
                job_id: *job_id,
                last_error: opt_view(*last_error),
            },
            PrintEventOf::DocumentStarted { status, last_error } => PrintEventOf::DocumentStarted {
                status: *status,
                last_error: opt_view(*last_error),
            },
            PrintEventOf::ChunkRead { result } => PrintEventOf::ChunkRead {
                result: match result {
                    Ok(chunk) => Ok(chunk@),
                    Err(m) => Err(m@),
                },
            },
            PrintEventOf::ChunkWritten { status, last_error } => PrintEventOf::ChunkWritten {
                status: *status,
                last_error: opt_view(*last_error),
            },
            PrintEventOf::DocumentFinished { status, last_error } => PrintEventOf::DocumentFinished {
                status: *status,
                last_error: opt_view(*last_error),
            },
            PrintEventOf::JobClosed { status, last_error } => PrintEventOf::JobClosed {
                status: *status,
                last_error: opt_view(*last_error),
            },
            PrintEventOf::JobCancelled { status, last_error } => PrintEventOf::JobCancelled {
                status: *status,
                last_error: opt_view(*last_error),
            },
        }
    }
}

impl View for PrintActionOf<String, PrintError, Vec<u8>> {
    type V = ActionView;

    open spec fn view(&self) -> ActionView {
        match self {
            PrintActionOf::CheckOption { name, value } => PrintActionOf::CheckOption {
                name: name@,
                value: value@,
            },
            PrintActionOf::AddOption { name, value } => PrintActionOf::AddOption {
                name: name@,
                value: value@,
            },
            PrintActionOf::CreateJob { title } => PrintActionOf::CreateJob { title: title@ },
            PrintActionOf::StartDocument { document, job_id, file_name, format, last_document } =>
                PrintActionOf::StartDocument {
                document: *document,
                job_id: *job_id,
                file_name: file_name@,
                format: format@,
                last_document: *last_document,
            },
            PrintActionOf::ReadChunk { document } => PrintActionOf::ReadChunk {
                document: *document,
            },
            PrintActionOf::WriteChunk { document, data } => PrintActionOf::WriteChunk {
                document: *document,
                data: data@,
            },
            PrintActionOf::FinishDocument { document } => PrintActionOf::FinishDocument {
                document: *document,
            },
            PrintActionOf::CloseJob { job_id } => PrintActionOf::CloseJob { job_id: *job_id },
            PrintActionOf::CancelJob { job_id } => PrintActionOf::CancelJob { job_id: *job_id },
            PrintActionOf::Finished { result, cancel_error } => PrintActionOf::Finished {
                result: result_view(*result),
                cancel_error: opt_error_view(*cancel_error),
            },
        }
    }
}

/// The specification model of a phase.
pub open spec fn phase_view(p: JobPhase<PrintError, Vec<u8>>) -> PhaseView {
    match p {
        JobPhase::CheckOption { index } => JobPhase::CheckOption { index },
        JobPhase::AddOption { index } => JobPhase::AddOption { index },
        JobPhase::CreateJob => JobPhase::CreateJob,
        JobPhase::StartDocument { document } => JobPhase::StartDocument { document },
        JobPhase::ReadChunk { document } => JobPhase::ReadChunk { document },
        JobPhase::WriteChunk { document, data } => JobPhase::WriteChunk { document, data: data@ },
        JobPhase::FinishDocument { document } => JobPhase::FinishDocument { document },
        JobPhase::CloseJob => JobPhase::CloseJob,
        JobPhase::CancelJob { error } => JobPhase::CancelJob { error: error@ },
        JobPhase::Finished { result, cancel_error } => JobPhase::Finished {
            result: result_view(result),
            cancel_error: opt_error_view(cancel_error),
        },
    }
}

/// The file name under which the document at position `document` of a job is uploaded:
/// the job's title, a hyphen, and the document's number counted from 1.
pub open spec fn document_name(title: Seq<char>, document: nat) -> Seq<char> {
    title + seq!['-'] + digits(document + 1)
}

/// The specification model of a print job.
pub struct JobView {
    /// The options to check and add, by name and value, in order.
    pub requests: Seq<RequestView>,
    /// The number of documents to upload.
    pub documents: nat,
    /// The title of the job.
    pub title: Seq<char>,
    /// The job ID that CUPS assigned, once the job was created.
    pub id: i32,
    /// The number of documents uploaded completely.
    pub amount_documents: nat,
    /// Whether the job exists on the CUPS server and is not yet closed (so a failure cancels it).
    pub cancel_on_drop: bool,
    /// Where the job stands.
    pub phase: PhaseView,
}

impl JobView {
    /// The job that `print` starts: it checks the first option, or creates the job when
    /// there are no options to check.
    pub open spec fn initial(requests: Seq<RequestView>, documents: nat) -> JobView {
        JobView {
            requests,
            documents,
            title: JOB_TITLE@,
            id: 0,
            amount_documents: 0,
            cancel_on_drop: false,
            phase: if requests.len() > 0 {
                JobPhase::CheckOption { index: 0 }
            } else {
                JobPhase::CreateJob
            },
        }
    }

    /// The phase after the upload of the document at `document` was finished: the next
    /// document, or closing the job after the last one.
    pub open spec fn after_document(self, document: nat) -> PhaseView {
        if document + 1 < self.documents {
            JobPhase::StartDocument { document: (document + 1) as usize }
        } else {
            JobPhase::CloseJob
        }
    }

    /// The same job in another phase.
    pub open spec fn with_phase(self, phase: PhaseView) -> JobView {
        JobView { phase, ..self }
    }

    /// The job after the CUPS call it asked for came back with `event`. An event that does not
    /// answer the pending action leaves the job as it is, and so does any event once the job
    /// is finished.
    pub open spec fn next(self, event: EventView) -> JobView {
        match self.phase {
            JobPhase::CheckOption { index } => match event {
                PrintEventOf::OptionChecked { supported } => if supported == 1i32 {
                    self.with_phase(JobPhase::AddOption { index })
                } else {
                    self.with_phase(
                        JobPhase::Finished {
                            result: Err(
                                PrintErrorOf::UnsupportedOption {
                                    name: self.requests[index as int].2,
                                    value: self.requests[index as int].3,
                                },
                            ),
                            cancel_error: None,
                        },
                    )
                },
                _ => self,
            },
            JobPhase::AddOption { index } => match event {
                PrintEventOf::OptionAdded => if index + 1 < self.requests.len() {
                    self.with_phase(JobPhase::CheckOption { index: (index + 1) as usize })
                } else {
                    self.with_phase(JobPhase::CreateJob)
                },
                _ => self,
            },
            JobPhase::CreateJob => match event {
                PrintEventOf::JobCreated { status, job_id, last_error } => if status
                    == consts::IPP_STATUS_OK {
                    JobView {
                        id: job_id,
                        cancel_on_drop: true,
                        phase: if self.documents > 0 {
                            JobPhase::StartDocument { document: 0 }
                        } else {
                            JobPhase::CloseJob
                        },
                        ..self
                    }
                } else {
                    self.with_phase(
                        JobPhase::Finished {
                            result: Err(backend_error_view(last_error)),
                            cancel_error: None,
                        },
                    )
                },
                _ => self,
            },
            JobPhase::StartDocument { document } => match event {
                PrintEventOf::DocumentStarted { status, last_error } => if status
                    == consts::HTTP_STATUS_CONTINUE {
                    self.with_phase(JobPhase::ReadChunk { document })
                } else {
                    self.with_phase(JobPhase::CancelJob { error: backend_error_view(last_error) })
                },
                _ => self,
            },
            JobPhase::ReadChunk { document } => match event {
                PrintEventOf::ChunkRead { result } => match result {
                    Ok(chunk) => if chunk.len() == 0 {
                        self.with_phase(JobPhase::FinishDocument { document })
                    } else {
                        self.with_phase(JobPhase::WriteChunk { document, data: chunk })
                    },
                    Err(reason) => self.with_phase(
                        JobPhase::CancelJob { error: PrintErrorOf::FileRead(reason) },
                    ),
                },
                _ => self,
            },
            JobPhase::WriteChunk { document, .. } => match event {
                PrintEventOf::ChunkWritten { status, last_error } => if status
                    == consts::HTTP_STATUS_CONTINUE {
                    self.with_phase(JobPhase::ReadChunk { document })
                } else {
                    self.with_phase(JobPhase::CancelJob { error: backend_error_view(last_error) })
                },
                _ => self,
            },
            JobPhase::FinishDocument { document } => match event {
                PrintEventOf::DocumentFinished { status, last_error } => if status
                    == consts::IPP_STATUS_OK {
                    JobView {
                        amount_documents: (document + 1) as nat,
                        phase: self.after_document(document as nat),
                        ..self
                    }
                } else {
                    self.with_phase(JobPhase::CancelJob { error: backend_error_view(last_error) })
                },
                _ => self,
            },
            JobPhase::CloseJob => match event {
                PrintEventOf::JobClosed { status, last_error } => if status
                    == consts::IPP_STATUS_OK {
                    JobView {
                        cancel_on_drop: false,
                        phase: JobPhase::Finished { result: Ok(()), cancel_error: None },
                        ..self
                    }
                } else {
                    self.with_phase(JobPhase::CancelJob { error: backend_error_view(last_error) })
                },
                _ => self,
            },
            JobPhase::CancelJob { error } => match event {
                PrintEventOf::JobCancelled { status, last_error } => JobView {
                    cancel_on_drop: false,
                    phase: JobPhase::Finished {
                        result: Err(error),
                        cancel_error: if status == consts::IPP_STATUS_OK {
                            None
                        } else {
                            Some(backend_error_view(last_error))
                        },
                    },
                    ..self
                },
                _ => self,
            },
            JobPhase::Finished { .. } => self,
        }
    }

    /// What the job asks its caller to do in its current phase.
    pub open spec fn action(self) -> ActionView {
        match self.phase {
            JobPhase::CheckOption { index } => PrintActionOf::CheckOption {
                name: self.requests[index as int].0,
                value: self.requests[index as int].1,
            },
            JobPhase::AddOption { index } => PrintActionOf::AddOption {
                name: self.requests[index as int].0,
                value: self.requests[index as int].1,
            },
            JobPhase::CreateJob => PrintActionOf::CreateJob { title: self.title },
            JobPhase::StartDocument { document } => PrintActionOf::StartDocument {
                document,
                job_id: self.id,
                file_name: document_name(self.title, document as nat),
                format: consts::CUPS_FORMAT_AUTO@,
                last_document: 0,
            },
            JobPhase::ReadChunk { document } => PrintActionOf::ReadChunk { document },
            JobPhase::WriteChunk { document, data } => PrintActionOf::WriteChunk { document, data },
            JobPhase::FinishDocument { document } => PrintActionOf::FinishDocument { document },
            JobPhase::CloseJob => PrintActionOf::CloseJob { job_id: self.id },
            JobPhase::CancelJob { .. } => PrintActionOf::CancelJob { job_id: self.id },
            JobPhase::Finished { result, cancel_error } => PrintActionOf::Finished {
                result,
                cancel_error,
            },
        }
    }

    /// The consistency of a job: positions are in range, the count of uploaded documents
    /// matches the phase, a chunk waiting to be written is not empty, a job that printed
    /// uploaded every document, and a job exists on the server exactly between its creation
    /// and its closing or cancellation.
    pub open spec fn wf(self) -> bool {
        &&& has_no_nul(self.title)
        &&& requests_have_no_nul(self.requests)
        &&& self.requests.len() <= usize::MAX
        &&& self.documents <= usize::MAX
        &&& self.amount_documents <= self.documents
        &&& match self.phase {
            JobPhase::CheckOption { index } => index < self.requests.len() && !self.cancel_on_drop
                && self.amount_documents == 0,
            JobPhase::AddOption { index } => index < self.requests.len() && !self.cancel_on_drop
                && self.amount_documents == 0,
            JobPhase::CreateJob => !self.cancel_on_drop && self.amount_documents == 0,
            JobPhase::StartDocument { document } => document < self.documents
                && self.amount_documents == document && self.cancel_on_drop,
            JobPhase::ReadChunk { document } => document < self.documents && self.amount_documents
                == document && self.cancel_on_drop,
            JobPhase::WriteChunk { document, data } => document < self.documents
                && self.amount_documents == document && self.cancel_on_drop && data.len() > 0,
            JobPhase::FinishDocument { document } => document < self.documents
                && self.amount_documents == document && self.cancel_on_drop,
            JobPhase::CloseJob => self.cancel_on_drop && self.amount_documents == self.documents,
            JobPhase::CancelJob { error } => self.cancel_on_drop && (error is Backend
                || error is FileRead),
            JobPhase::Finished { result, .. } => !self.cancel_on_drop && (result is Ok
                ==> self.amount_documents == self.documents),
        }
    }

    /// Whether the job is over.
    pub open spec fn is_finished(self) -> bool {
        self.phase is Finished
    }
}

/// The part of a job that changes as it runs.
struct JobState {
    phase: JobPhase<PrintError, Vec<u8>>,
    id: i32,
    amount_documents: usize,
    cancel_on_drop: bool,
}

/// A print job on the first CUPS destination, as a state machine that asks for CUPS calls
/// through [`PrintAction`]s and takes their outcomes as [`PrintEvent`]s.
pub struct CupsJob {
    /// The options to check and add, in order.
    requests: Vec<OptionRequest>,
    /// The number of documents to upload.
    documents: usize,
    /// Title of the job.
    title: String,
    /// What changes as the job runs.
    state: JobState,
}

impl View for CupsJob {
    type V = JobView;

    closed spec fn view(&self) -> JobView {
        JobView {
            requests: requests_view(self.requests@),
            documents: self.documents as nat,
            title: self.title@,
            id: self.state.id,
            amount_documents: self.state.amount_documents as nat,
            cancel_on_drop: self.state.cancel_on_drop,
            phase: phase_view(self.state.phase),
        }
    }
}

impl CupsJob {
    #[verifier::type_invariant]
    spec fn inv(self) -> bool {
        self@.wf()
    }

    /// Returns what the job asks its caller to do now.
    pub fn action(&self) -> (a: PrintAction)
        ensures
            a@ == self@.action(),
            action_texts_have_no_nul(a@),
    {
        proof {
            use_type_invariant(self);
            lemma_action_texts_have_no_nul(self@);
        }
        match &self.state.phase {
            JobPhase::CheckOption { index } => {
                let request = &self.requests[*index];
                PrintActionOf::CheckOption { name: request.name.clone(), value: request.value.clone() }
            },
            JobPhase::AddOption { index } => {
                let request = &self.requests[*index];
                PrintActionOf::AddOption { name: request.name.clone(), value: request.value.clone() }
            },
            JobPhase::CreateJob => PrintActionOf::CreateJob { title: self.title.clone() },
            JobPhase::StartDocument { document } => {
                let file_name = make_document_name(&self.title, *document);
                let format = consts::CUPS_FORMAT_AUTO.to_owned();
                PrintActionOf::StartDocument {
                    document: *document,
                    job_id: self.state.id,
                    file_name,
                    format,
                    last_document: consts::bool(false),
                }
            },
            JobPhase::ReadChunk { document } => PrintActionOf::ReadChunk { document: *document },
            JobPhase::WriteChunk { document, data } => {
                let data = data.clone();
                assert(data@ =~= self@.action()->WriteChunk_data);
                PrintActionOf::WriteChunk { document: *document, data }
            },
            JobPhase::FinishDocument { document } => PrintActionOf::FinishDocument {
                document: *document,
            },
            JobPhase::CloseJob => PrintActionOf::CloseJob { job_id: self.state.id },
            JobPhase::CancelJob { .. } => PrintActionOf::CancelJob { job_id: self.state.id },
            JobPhase::Finished { result, cancel_error } => {
                let result = match result {
                    Ok(()) => Ok(()),
                    Err(e) => Err(e.duplicate()),
                };
                let cancel_error = match cancel_error {
                    Some(e) => Some(e.duplicate()),
                    None => None,
                };
                PrintActionOf::Finished { result, cancel_error }
            },
        }
    }

    /// The state after `event`, or `None` when the event leaves the job as it is.
    fn transition(&self, event: PrintEvent) -> (r: Option<JobState>)
        ensures
            match r {
                Some(s) => self@.next(event@) == (JobView {
                    id: s.id,
                    amount_documents: s.amount_documents as nat,
                    cancel_on_drop: s.cancel_on_drop,
                    phase: phase_view(s.phase),
                    ..self@
                }),
                None => self@.next(event@) == self@,
            },
    {
        proof {
            use_type_invariant(self);
        }
        let id = self.state.id;
        let amount_documents = self.state.amount_documents;
        match &self.state.phase {
            JobPhase::CheckOption { index } => match event {
                PrintEventOf::OptionChecked { supported } => {
                    let phase = if supported == 1 {
                        JobPhase::AddOption { index: *index }
                    } else {
                        let request = &self.requests[*index];
                        JobPhase::Finished {
                            result: Err(
                                PrintErrorOf::UnsupportedOption {
                                    name: request.label.clone(),
                                    value: request.human_value.clone(),
                                },
                            ),
                            cancel_error: None,
                        }
                    };
                    Some(JobState { phase, id, amount_documents, cancel_on_drop: false })
                },
                _ => None,
            },
            JobPhase::AddOption { index } => match event {
                PrintEventOf::OptionAdded => {
                    assert(*index < self.requests@.len());
                    let phase = if *index < self.requests.len() - 1 {
                        JobPhase::CheckOption { index: *index + 1 }
                    } else {
                        JobPhase::CreateJob
                    };
                    Some(JobState { phase, id, amount_documents, cancel_on_drop: false })
                },
                _ => None,
            },
            JobPhase::CreateJob => match event {
                PrintEventOf::JobCreated { status, job_id, last_error } => {
                    if status == consts::IPP_STATUS_OK {
                        let phase = if self.documents > 0 {
                            JobPhase::StartDocument { document: 0 }
                        } else {
                            JobPhase::CloseJob
                        };
                        Some(JobState { phase, id: job_id, amount_documents, cancel_on_drop: true })
                    } else {
                        let phase = JobPhase::Finished {
                            result: Err(backend_error(last_error)),
                            cancel_error: None,
                        };
                        Some(JobState { phase, id, amount_documents, cancel_on_drop: false })
                    }
                },
                _ => None,
            },
            JobPhase::StartDocument { document } => match event {
                PrintEventOf::DocumentStarted { status, last_error } => {
                    let phase = if status == consts::HTTP_STATUS_CONTINUE {
                        JobPhase::ReadChunk { document: *document }
                    } else {
                        JobPhase::CancelJob { error: backend_error(last_error) }
                    };
                    Some(JobState { phase, id, amount_documents, cancel_on_drop: true })
                },
                _ => None,
            },
            JobPhase::ReadChunk { document } => match event {
                PrintEventOf::ChunkRead { result } => {
                    let phase = match result {
                        Ok(chunk) => if chunk.len() == 0 {
                            JobPhase::FinishDocument { document: *document }
                        } else {
                            JobPhase::WriteChunk { document: *document, data: chunk }
                        },
                        Err(reason) => JobPhase::CancelJob { error: PrintErrorOf::FileRead(reason) },
                    };
                    Some(JobState { phase, id, amount_documents, cancel_on_drop: true })
                },
                _ => None,
            },
            JobPhase::WriteChunk { document, .. } => match event {
                PrintEventOf::ChunkWritten { status, last_error } => {
                    let phase = if status == consts::HTTP_STATUS_CONTINUE {
                        JobPhase::ReadChunk { document: *document }
                    } else {
                        JobPhase::CancelJob { error: backend_error(last_error) }
                    };
                    Some(JobState { phase, id, amount_documents, cancel_on_drop: true })
                },
                _ => None,
            },
            JobPhase::FinishDocument { document } => match event {
                PrintEventOf::DocumentFinished { status, last_error } => {
                    if status == consts::IPP_STATUS_OK {
                        let finished = *document + 1;
                        let phase = if finished < self.documents {
                            JobPhase::StartDocument { document: finished }
                        } else {
                            JobPhase::CloseJob
                        };
                        Some(JobState { phase, id, amount_documents: finished, cancel_on_drop: true })
                    } else {
                        let phase = JobPhase::CancelJob { error: backend_error(last_error) };
                        Some(JobState { phase, id, amount_documents, cancel_on_drop: true })
                    }
                },
                _ => None,
            },
            JobPhase::CloseJob => match event {
                PrintEventOf::JobClosed { status, last_error } => {
                    if status == consts::IPP_STATUS_OK {
                        let phase = JobPhase::Finished { result: Ok(()), cancel_error: None };
                        Some(JobState { phase, id, amount_documents, cancel_on_drop: false })
                    } else {
                        let phase = JobPhase::CancelJob { error: backend_error(last_error) };
                        Some(JobState { phase, id, amount_documents, cancel_on_drop: true })
                    }
                },
                _ => None,
            },
            JobPhase::CancelJob { error } => match event {
                PrintEventOf::JobCancelled { status, last_error } => {
                    let cancel_error = if status == consts::IPP_STATUS_OK {
                        None
                    } else {
                        Some(backend_error(last_error))
                    };
                    let phase = JobPhase::Finished { result: Err(error.duplicate()), cancel_error };
                    Some(JobState { phase, id, amount_documents, cancel_on_drop: false })
                },
                _ => None,
            },
            JobPhase::Finished { .. } => None,
        }
    }

    /// Takes the outcome of the CUPS call that the job asked for, moves the job on, and
    /// returns what it asks for next.
    pub fn step(&mut self, event: PrintEvent) -> (a: PrintAction)
        ensures
            final(self)@ == old(self)@.next(event@),
            final(self)@.wf(),
            a@ == final(self)@.action(),
            action_texts_have_no_nul(a@),
    {
        proof {
            use_type_invariant(&*self);
        }
        if let Some(state) = self.transition(event) {
            proof {
                lemma_next_keeps_wf(old(self)@, event@);
            }
            self.state = state;
        }
        proof {
            use_type_invariant(&*self);
        }
        self.action()
    }
}

/// Builds the file name of the document at position `document` of a job titled `title`.
fn make_document_name(title: &String, document: usize) -> (r: String)
    requires
        document < usize::MAX,
    ensures
        r@ == document_name(title@, document as nat),
{
    let mut name = title.clone();
    name.append("-");
    proof {
        reveal_strlit("-");
    }
    push_digits(&mut name, (document + 1) as u64);
    name
}

/// Starts a print job on the first of `destinations` that asks for the options in `options`
/// and uploads `documents` documents, or fails with [`PrintErrorOf::NoPrinters`] when there
/// is no destination.
pub fn print(destinations: &CupsDestinations, options: &PrintOptions, documents: usize) -> (r: Result<
    CupsJob,
    PrintError,
>)
    ensures
        r is Err <==> destinations@.len() == 0,
        r matches Err(e) ==> e@ == PrintErrorOf::<Seq<char>>::NoPrinters,
        r matches Ok(job) ==> job@ == JobView::initial(option_requests(*options), documents as nat),
        r matches Ok(job) ==> job@.wf(),
{
    if destinations.get(0).is_none() {
        return Err(PrintErrorOf::NoPrinters);
    }
    let requests = cups_option_requests(options);
    proof {
        lemma_option_requests_have_no_nul(*options);
    }
    let phase = if requests.len() > 0 {
        JobPhase::CheckOption { index: 0 }
    } else {
        JobPhase::CreateJob
    };
    proof {
        reveal_strlit("printrs");
    }
    let title = JOB_TITLE.to_owned();
    let state = JobState { phase, id: 0, amount_documents: 0, cancel_on_drop: false };
    Ok(CupsJob { requests, documents, title, state })
}

/// Each step keeps a job consistent.
pub proof fn lemma_next_keeps_wf(v: JobView, event: EventView)
    requires
        v.wf(),
    ensures
        v.next(event).wf(),
{
    assert(v.next(event).requests == v.requests);
}

} // verus!

verus! {

/// The job after a sequence of events, taken in order.
pub open spec fn run(v: JobView, events: Seq<EventView>) -> JobView
    decreases events.len(),
{
    if events.len() == 0 {
        v
    } else {
        run(v.next(events[0]), events.drop_first())
    }
}

/// A finished job stays as it is, whatever event comes.
pub proof fn lemma_finished_is_final(v: JobView, event: EventView)
    requires
        v.is_finished(),
    ensures
        v.next(event) == v,
{
}

/// A finished job stays as it is, whatever events come.
pub proof fn lemma_run_finished_is_final(v: JobView, events: Seq<EventView>)
    requires
        v.is_finished(),
    ensures
        run(v, events) == v,
    decreases events.len(),
{
    if events.len() > 0 {
        lemma_run_finished_is_final(v.next(events[0]), events.drop_first());
    }
}

/// Every sequence of events keeps a job consistent.
pub proof fn lemma_run_keeps_wf(v: JobView, events: Seq<EventView>)
    requires
        v.wf(),
    ensures
        run(v, events).wf(),
    decreases events.len(),
{
    if events.len() > 0 {
        lemma_next_keeps_wf(v, events[0]);
        lemma_run_keeps_wf(v.next(events[0]), events.drop_first());
    }
}

/// Whether a phase is the end of a job that printed.
pub open spec fn is_printed(p: PhaseView) -> bool {
    p matches JobPhase::Finished { result: Ok(()), cancel_error: None }
}

/// Whether a phase is the end of a job that failed.
pub open spec fn is_failed(p: PhaseView) -> bool {
    p matches JobPhase::Finished { result: Err(_), .. }
}

/// Whether `q` ends a job with the failure that the cancellation phase `p` carries.
pub open spec fn reports_cancelled_failure(
    p: PhaseView,
    q: PhaseView,
) -> bool {
    &&& p matches JobPhase::CancelJob { error }
    &&& q matches JobPhase::Finished { result: Err(e), .. }
    &&& e == p->CancelJob_error
}

/// The error that ends a job, if it ended in failure.
pub open spec fn failure_of(p: PhaseView) -> Option<PrintErrorView> {
    match p {
        JobPhase::Finished { result: Err(e), .. } => Some(e),
        _ => None,
    }
}

/// Whether an event is the answer to a successful closing of the job.
pub open spec fn is_successful_close(event: EventView) -> bool {
    event matches PrintEventOf::JobClosed { status, .. } && status == consts::IPP_STATUS_OK
}

/// Whether an event says the destination supports the option just checked.
pub open spec fn is_supported_answer(event: EventView) -> bool {
    event matches PrintEventOf::OptionChecked { supported } && supported == 1
}

/// Whether an event says the destination does not support the option just checked.
pub open spec fn is_unsupported_answer(event: EventView) -> bool {
    event matches PrintEventOf::OptionChecked { supported } && supported != 1
}

/// A job that exists on the server ends in one step only by being closed successfully or by
/// the answer to its cancellation; a failure in any other phase leads to its cancellation
/// first, and the cancellation reports the failure that caused it.
pub proof fn lemma_created_job_ends_closed_or_cancelled(v: JobView, event: EventView)
    requires
        v.wf(),
        v.cancel_on_drop,
        v.next(event).is_finished(),
    ensures
        (v.phase is CloseJob && is_printed(v.next(event).phase)) || reports_cancelled_failure(
            v.phase,
            v.next(event).phase,
        ),
{
}

/// Only a job that exists on the server is ever cancelled.
pub proof fn lemma_only_created_job_is_cancelled(v: JobView, event: EventView)
    requires
        v.wf(),
        (v.next(event).phase is CancelJob),
    ensures
        v.cancel_on_drop,
        v.next(event).cancel_on_drop,
{
}

/// A job prints successfully only when its closing succeeds, after every document was
/// uploaded completely.
pub proof fn lemma_success_needs_every_document(v: JobView, event: EventView)
    requires
        v.wf(),
        !v.is_finished(),
        v.next(event).is_finished(),
        failure_of(v.next(event).phase) == None::<PrintErrorView>,
    ensures
        (v.phase is CloseJob),
        v.amount_documents == v.documents,
        is_successful_close(event),
        is_printed(v.next(event).phase),
{
}

/// The job is created only after the last option request was added, or at once when there
/// are no option requests.
pub proof fn lemma_job_created_after_every_option(v: JobView, event: EventView)
    requires
        v.wf(),
        !(v.phase is CreateJob),
        (v.next(event).phase is CreateJob),
    ensures
        (v.phase is AddOption),
        v.phase->AddOption_index + 1 == v.requests.len(),
        (event is OptionAdded),
{
}

/// An option is added only after the destination said it supports it.
pub proof fn lemma_option_added_only_if_supported(v: JobView, event: EventView)
    requires
        v.wf(),
        (v.next(event).phase is AddOption),
        !(v.phase is AddOption),
    ensures
        (v.phase is CheckOption),
        v.phase->CheckOption_index == v.next(event).phase->AddOption_index,
        is_supported_answer(event),
{
}

/// An unsupported option is reported by its name and value, and the job is then not created.
pub proof fn lemma_unsupported_option_reported(v: JobView, event: EventView)
    requires
        v.wf(),
        !v.is_finished(),
        failure_of(v.next(event).phase) matches Some(e) && (e is UnsupportedOption),
    ensures
        (v.phase is CheckOption),
        failure_of(v.next(event).phase) == Some(
            PrintErrorOf::UnsupportedOption {
                name: v.requests[v.phase->CheckOption_index as int].2,
                value: v.requests[v.phase->CheckOption_index as int].3,
            },
        ),
        is_unsupported_answer(event),
        !v.next(event).cancel_on_drop,
{
}

/// Whether a job is being cancelled.
pub open spec fn is_cancelling(v: JobView) -> bool {
    v.phase is CancelJob
}

/// Whatever events come, a job that exists on the server and ends in failure was cancelled
/// on the way: some prefix of the events leads it to its cancellation.
pub proof fn lemma_failed_job_was_cancelled(v: JobView, events: Seq<EventView>)
    requires
        v.wf(),
        v.cancel_on_drop,
        is_failed(run(v, events).phase),
    ensures
        exists|k: int| 0 <= k <= events.len() && is_cancelling(#[trigger] run(v, events.take(k))),
    decreases events.len(),
{
    if v.phase is CancelJob {
        assert(run(v, events.take(0)) == v);
    } else if events.len() == 0 {
        assert(run(v, events) == v);
    } else {
        let v1 = v.next(events[0]);
        let rest = events.drop_first();
        lemma_next_keeps_wf(v, events[0]);
        assert(run(v, events) == run(v1, rest));
        if v1.is_finished() {
            lemma_created_job_ends_closed_or_cancelled(v, events[0]);
            lemma_run_finished_is_final(v1, rest);
        } else {
            lemma_failed_job_was_cancelled(v1, rest);
            let k = choose|k: int| 0 <= k <= rest.len() && is_cancelling(#[trigger] run(v1, rest.take(k)));
            assert(events.take(k + 1).drop_first() =~= rest.take(k));
            assert(events.take(k + 1)[0] == events[0]);
            assert(run(v, events.take(k + 1)) == run(v1, rest.take(k)));
        }
    }
}

/// The documents of a job are uploaded under different file names.
pub proof fn lemma_document_names_distinct(title: Seq<char>, a: nat, b: nat)
    requires
        a != b,
    ensures
        document_name(title, a) != document_name(title, b),
{
    if document_name(title, a) == document_name(title, b) {
        let n = title.len() + 1;
        assert(document_name(title, a).subrange(n as int, document_name(title, a).len() as int)
            =~= digits(a + 1));
        assert(document_name(title, b).subrange(n as int, document_name(title, b).len() as int)
            =~= digits(b + 1));
        lemma_digits_injective(a + 1, b + 1);
    }
}

/// The file name of a document holds no NUL character when the title holds none, so it
/// converts to a C string.
pub proof fn lemma_document_name_has_no_nul(title: Seq<char>, document: nat)
    requires
        has_no_nul(title),
    ensures
        has_no_nul(document_name(title, document)),
{
    lemma_digits_are_digits(document + 1);
    let name = document_name(title, document);
    assert forall|i: int| 0 <= i < name.len() implies #[trigger] name[i] != '\0' by {
        if i < title.len() {
            assert(name[i] == title[i]);
        } else if i == title.len() {
            assert(name[i] == '-');
        } else {
            assert(name[i] == digits(document + 1)[i - title.len() - 1]);
            assert(is_digit_char(digits(document + 1)[i - title.len() - 1]));
        }
    }
}

/// Whether every text that an action hands to CUPS holds no NUL character.
pub open spec fn action_texts_have_no_nul(a: ActionView) -> bool {
    match a {
        PrintActionOf::CheckOption { name, value } => has_no_nul(name) && has_no_nul(value),
        PrintActionOf::AddOption { name, value } => has_no_nul(name) && has_no_nul(value),
        PrintActionOf::CreateJob { title } => has_no_nul(title),
        PrintActionOf::StartDocument { file_name, .. } => has_no_nul(file_name),
        _ => true,
    }
}

/// Every option name and value, title and file name that a job hands to CUPS converts to a
/// C string.
pub proof fn lemma_action_texts_have_no_nul(v: JobView)
    requires
        v.wf(),
    ensures
        action_texts_have_no_nul(v.action()),
{
    if let JobPhase::StartDocument { document } = v.phase {
        lemma_document_name_has_no_nul(v.title, document as nat);
    }
}

/// Whether an event answers a cancellation of the job.
pub open spec fn is_cancel_answer(event: EventView) -> bool {
    event is JobCancelled
}

/// The number of cancellations of the job on the server over a sequence of events: one for
/// each answer to the cancellation that the job asked for.
pub open spec fn cancel_calls(v: JobView, events: Seq<EventView>) -> nat
    decreases events.len(),
{
    if events.len() == 0 {
        0
    } else {
        (if is_cancelling(v) && is_cancel_answer(events[0]) {
            1nat
        } else {
            0nat
        }) + cancel_calls(v.next(events[0]), events.drop_first())
    }
}

/// A finished job cancels nothing more, whatever events come.
pub proof fn lemma_finished_job_cancels_nothing(v: JobView, events: Seq<EventView>)
    requires
        v.is_finished(),
    ensures
        cancel_calls(v, events) == 0,
    decreases events.len(),
{
    if events.len() > 0 {
        lemma_finished_job_cancels_nothing(v.next(events[0]), events.drop_first());
    }
}

/// A job is cancelled at most once, whatever events come.
pub proof fn lemma_cancelled_at_most_once(v: JobView, events: Seq<EventView>)
    requires
        v.wf(),
    ensures
        cancel_calls(v, events) <= 1,
    decreases events.len(),
{
    if events.len() > 0 {
        let v1 = v.next(events[0]);
        let rest = events.drop_first();
        lemma_next_keeps_wf(v, events[0]);
        if is_cancelling(v) && is_cancel_answer(events[0]) {
            lemma_finished_job_cancels_nothing(v1, rest);
        } else {
            lemma_cancelled_at_most_once(v1, rest);
        }
    }
}

/// A job that prints is never cancelled, neither before its successful close nor after it.
pub proof fn lemma_printed_job_never_cancelled(v: JobView, events: Seq<EventView>)
    requires
        v.wf(),
        is_printed(run(v, events).phase),
    ensures
        cancel_calls(v, events) == 0,
    decreases events.len(),
{
    if events.len() > 0 {
        let v1 = v.next(events[0]);
        let rest = events.drop_first();
        lemma_next_keeps_wf(v, events[0]);
        assert(run(v, events) == run(v1, rest));
        if is_cancelling(v) && is_cancel_answer(events[0]) {
            lemma_run_finished_is_final(v1, rest);
        } else {
            lemma_printed_job_never_cancelled(v1, rest);
        }
    }
}

/// A job that exists on the server and ends in failure is cancelled exactly once.
pub proof fn lemma_failed_created_job_cancelled_once(
    v: JobView,
    events: Seq<EventView>,
)
    requires
        v.wf(),
        v.cancel_on_drop,
        is_failed(run(v, events).phase),
    ensures
        cancel_calls(v, events) == 1,
    decreases events.len(),
{
    if events.len() == 0 {
        assert(run(v, events) == v);
    } else {
        let v1 = v.next(events[0]);
        let rest = events.drop_first();
        lemma_next_keeps_wf(v, events[0]);
        assert(run(v, events) == run(v1, rest));
        if is_cancelling(v) && is_cancel_answer(events[0]) {
            lemma_finished_job_cancels_nothing(v1, rest);
        } else if v1.is_finished() {
            lemma_created_job_ends_closed_or_cancelled(v, events[0]);
            lemma_run_finished_is_final(v1, rest);
        } else {
            lemma_failed_created_job_cancelled_once(v1, rest);
        }
    }
}

/// Creating the job: on success the job records the ID that CUPS assigned, exists on the
/// server with no document uploaded yet, and goes on with its first document (or its closing
/// when there are none); on failure the job ends with the error CUPS reported, does not exist
/// on the server, and is never cancelled, whatever events come.
pub proof fn lemma_job_creation(
    v: JobView,
    status: i32,
    job_id: i32,
    last_error: Option<Seq<char>>,
    events: Seq<EventView>,
)
    requires
        v.wf(),
        (v.phase is CreateJob),
    ensures
        ({
            let w = v.next(PrintEventOf::JobCreated { status, job_id, last_error });
            if status == consts::IPP_STATUS_OK {
                &&& w.id == job_id
                &&& w.cancel_on_drop
                &&& w.amount_documents == 0
                &&& w.phase == (if v.documents > 0 {
                    JobPhase::<PrintErrorView, Seq<u8>>::StartDocument { document: 0 }
                } else {
                    JobPhase::<PrintErrorView, Seq<u8>>::CloseJob
                })
            } else {
                &&& !w.cancel_on_drop
                &&& failure_of(w.phase) == Some(backend_error_view(last_error))
                &&& cancel_calls(w, events) == 0
                &&& run(w, events) == w
            }
        }),
{
    let w = v.next(PrintEventOf::JobCreated { status, job_id, last_error });
    if status != consts::IPP_STATUS_OK {
        lemma_finished_job_cancels_nothing(w, events);
        lemma_run_finished_is_final(w, events);
    }
}

/// Whether an event answers a successful end of a document upload.
pub open spec fn is_successful_finish(event: EventView) -> bool {
    event matches PrintEventOf::DocumentFinished { status, .. } && status == consts::IPP_STATUS_OK
}

/// The count of uploaded documents changes only when the upload of the next document ends
/// successfully, and then by one; the document that follows is the next one in order.
pub proof fn lemma_documents_counted_in_order(v: JobView, event: EventView)
    requires
        v.wf(),
    ensures
        v.next(event).amount_documents == v.amount_documents || ((v.phase is FinishDocument)
            && is_successful_finish(event) && v.next(event).amount_documents == v.amount_documents
            + 1),
        (v.next(event).phase is StartDocument) && !(v.phase is StartDocument) ==> v.next(
            event,
        ).phase->StartDocument_document == v.next(event).amount_documents,
{
}

/// The bytes that `event` reads from the document at position `document` when it answers a
/// job in state `v`: the chunk read, or nothing.
pub open spec fn chunk_read(v: JobView, event: EventView, document: nat) -> Seq<u8> {
    match v.phase {
        JobPhase::ReadChunk { document: d } => match event {
            PrintEventOf::ChunkRead { result: Ok(chunk) } => if d == document {
                chunk
            } else {
                Seq::empty()
            },
            _ => Seq::empty(),
        },
        _ => Seq::empty(),
    }
}

/// The bytes of the document at position `document` that a job in state `v` has read and
/// still has to write to CUPS.
pub open spec fn pending_chunk(v: JobView, document: nat) -> Seq<u8> {
    match v.phase {
        JobPhase::WriteChunk { document: d, data } => if d == document {
            data
        } else {
            Seq::empty()
        },
        _ => Seq::empty(),
    }
}

/// The bytes of the document at position `document` that a job in state `v` handed to CUPS
/// in the write that `event` answers: the pending chunk, or nothing.
pub open spec fn chunk_written(v: JobView, event: EventView, document: nat) -> Seq<u8> {
    if event is ChunkWritten {
        pending_chunk(v, document)
    } else {
        Seq::empty()
    }
}

/// The bytes read from the document at position `document` over a sequence of events, in
/// order.
pub open spec fn bytes_read(v: JobView, events: Seq<EventView>, document: nat) -> Seq<u8>
    decreases events.len(),
{
    if events.len() == 0 {
        Seq::empty()
    } else {
        chunk_read(v, events[0], document) + bytes_read(
            v.next(events[0]),
            events.drop_first(),
            document,
        )
    }
}

/// The bytes of the document at position `document` handed to CUPS over a sequence of
/// events, in order.
pub open spec fn bytes_written(v: JobView, events: Seq<EventView>, document: nat) -> Seq<u8>
    decreases events.len(),
{
    if events.len() == 0 {
        Seq::empty()
    } else {
        chunk_written(v, events[0], document) + bytes_written(
            v.next(events[0]),
            events.drop_first(),
            document,
        )
    }
}

/// In one step, the bytes read join the pending chunk exactly as the bytes written leave it.
proof fn lemma_step_moves_bytes(v: JobView, event: EventView, document: nat)
    ensures
        pending_chunk(v, document) + chunk_read(v, event, document) == chunk_written(
            v,
            event,
            document,
        ) + pending_chunk(v.next(event), document),
{
    let lhs = pending_chunk(v, document) + chunk_read(v, event, document);
    let rhs = chunk_written(v, event, document) + pending_chunk(v.next(event), document);
    assert(lhs =~= rhs);
}

/// Whatever events come, a job writes the bytes of each document to CUPS exactly as it read
/// them, in order and each once: the chunk waiting to be written at the start, then the bytes
/// read, are the bytes written, then the chunk still waiting at the end.
pub proof fn lemma_written_bytes_are_read_bytes(v: JobView, events: Seq<EventView>, document: nat)
    ensures
        pending_chunk(v, document) + bytes_read(v, events, document) == bytes_written(
            v,
            events,
            document,
        ) + pending_chunk(run(v, events), document),
    decreases events.len(),
{
    if events.len() == 0 {
        assert(pending_chunk(v, document) + bytes_read(v, events, document) =~= pending_chunk(
            v,
            document,
        ));
        assert(bytes_written(v, events, document) + pending_chunk(run(v, events), document)
            =~= pending_chunk(v, document));
    } else {
        let e = events[0];
        let v1 = v.next(e);
        let rest = events.drop_first();
        lemma_step_moves_bytes(v, e, document);
        lemma_written_bytes_are_read_bytes(v1, rest, document);
        let p0 = pending_chunk(v, document);
        let r0 = chunk_read(v, e, document);
        let w0 = chunk_written(v, e, document);
        let p1 = pending_chunk(v1, document);
        let r = bytes_read(v1, rest, document);
        let w = bytes_written(v1, rest, document);
        let pn = pending_chunk(run(v1, rest), document);
        assert(p0 + (r0 + r) =~= (p0 + r0) + r);
        assert((w0 + p1) + r =~= w0 + (p1 + r));
        assert(w0 + (w + pn) =~= (w0 + w) + pn);
    }
}

/// Whatever events come between two states in which no chunk waits to be written, the bytes
/// of each document that the job handed to CUPS are the bytes it read from it, in order.
pub proof fn lemma_bytes_written_as_read(v: JobView, events: Seq<EventView>, document: nat)
    requires
        !(v.phase is WriteChunk),
        !(run(v, events).phase is WriteChunk),
    ensures
        bytes_written(v, events, document) == bytes_read(v, events, document),
{
    lemma_written_bytes_are_read_bytes(v, events, document);
    assert(pending_chunk(v, document) + bytes_read(v, events, document) =~= bytes_read(
        v,
        events,
        document,
    ));
    assert(bytes_written(v, events, document) + pending_chunk(run(v, events), document)
        =~= bytes_written(v, events, document));
}

/// A chunk that is read and not empty is what the job asks to write next, as it was read.
pub proof fn lemma_read_chunk_written_next(v: JobView, chunk: Seq<u8>)
    requires
        (v.phase is ReadChunk),
        chunk.len() > 0,
    ensures
        v.next(PrintEventOf::ChunkRead { result: Ok(chunk) }).action() == (PrintActionOf::<
            Seq<char>,
            PrintErrorView,
            Seq<u8>,
        >::WriteChunk { document: v.phase->ReadChunk_document, data: chunk }),
{
}

/// Whether `event` tells a job in state `v` that the document at position `document` has
/// ended: an empty chunk read from it.
pub open spec fn is_end_of_document(v: JobView, event: EventView, document: nat) -> bool {
    &&& v.phase matches JobPhase::ReadChunk { document: d } && d == document
    &&& event matches PrintEventOf::ChunkRead { result: Ok(chunk) } && chunk.len() == 0
}

/// Whether, over a sequence of events that come to a job in state `v`, the document at
/// position `document` was read to its end.
pub open spec fn read_to_end(v: JobView, events: Seq<EventView>, document: nat) -> bool {
    exists|k: int|
        0 <= k < events.len() && is_end_of_document(
            #[trigger] run(v, events.take(k)),
            events[k],
            document,
        )
}

/// Whether the document at position `document` is still to be read to its end by a job in
/// state `v`: it is not uploaded yet, and its end was not already read.
pub open spec fn end_still_owed(v: JobView, document: nat) -> bool {
    &&& document < v.documents
    &&& v.amount_documents <= document
    &&& !(v.phase is FinishDocument && document == v.amount_documents)
}

/// The upload of a document is finished only after its end was read.
pub proof fn lemma_document_finished_after_its_end(v: JobView, event: EventView)
    requires
        v.wf(),
        !(v.phase is FinishDocument),
        (v.next(event).phase is FinishDocument),
    ensures
        is_end_of_document(v, event, v.next(event).phase->FinishDocument_document as nat),
{
}

/// Whatever events come, a job that prints has read every document that it still had to
/// read to its end.
pub proof fn lemma_printed_job_read_every_document(v: JobView, events: Seq<EventView>)
    requires
        v.wf(),
        is_printed(run(v, events).phase),
    ensures
        forall|d: nat| end_still_owed(v, d) ==> #[trigger] read_to_end(v, events, d),
    decreases events.len(),
{
    if events.len() == 0 {
        assert(run(v, events) == v);
    } else {
        let e = events[0];
        let v1 = v.next(e);
        let rest = events.drop_first();
        lemma_next_keeps_wf(v, e);
        lemma_documents_counted_in_order(v, e);
        assert(run(v, events) == run(v1, rest));
        lemma_printed_job_read_every_document(v1, rest);
        assert forall|d: nat| end_still_owed(v, d) implies #[trigger] read_to_end(v, events, d) by {
            if end_still_owed(v1, d) {
                assert(read_to_end(v1, rest, d));
                let k = choose|k: int|
                    0 <= k < rest.len() && is_end_of_document(
                        #[trigger] run(v1, rest.take(k)),
                        rest[k],
                        d,
                    );
                assert(events.take(k + 1).drop_first() =~= rest.take(k));
                assert(events.take(k + 1)[0] == e);
                assert(run(v, events.take(k + 1)) == run(v1, rest.take(k)));
                assert(events[k + 1] == rest[k]);
            } else {
                assert(run(v, events.take(0)) == v);
            }
        }
    }
}

/// Whatever events come, a job that [`print`] starts and that prints has read each of its
/// documents to its end, and has handed to CUPS exactly the bytes it read from each, in order.
pub proof fn lemma_printed_job_uploads_every_document_whole(
    requests: Seq<RequestView>,
    documents: nat,
    events: Seq<EventView>,
)
    requires
        JobView::initial(requests, documents).wf(),
        is_printed(run(JobView::initial(requests, documents), events).phase),
    ensures
        forall|d: nat|
            d < documents ==> #[trigger] read_to_end(
                JobView::initial(requests, documents),
                events,
                d,
            ),
        forall|d: nat|
            d < documents ==> #[trigger] bytes_written(
                JobView::initial(requests, documents),
                events,
                d,
            ) == bytes_read(JobView::initial(requests, documents), events, d),
{
    let init = JobView::initial(requests, documents);
    lemma_printed_job_read_every_document(init, events);
    assert forall|d: nat| d < documents implies #[trigger] bytes_written(init, events, d)
        == bytes_read(init, events, d) by {
        lemma_bytes_written_as_read(init, events, d);
    }
    assert forall|d: nat| d < documents implies #[trigger] read_to_end(init, events, d) by {
        assert(end_still_owed(init, d));
    }
}

/// The destination refusing the option being checked ends the job at once with that option,
/// by its name and readable value; the job was not created and is not cancelled.
pub proof fn lemma_unsupported_option_ends_job(v: JobView, supported: i32)
    requires
        v.wf(),
        (v.phase is CheckOption),
        supported != 1,
    ensures
        v.next(PrintEventOf::OptionChecked { supported }).phase == (JobPhase::<
            PrintErrorView,
            Seq<u8>,
        >::Finished {
            result: Err(
                PrintErrorOf::UnsupportedOption {
                    name: v.requests[v.phase->CheckOption_index as int].2,
                    value: v.requests[v.phase->CheckOption_index as int].3,
                },
            ),
            cancel_error: None,
        }),
        !v.next(PrintEventOf::OptionChecked { supported }).cancel_on_drop,
{
}

/// The option that the job adds after a supported answer is the option it just checked.
pub proof fn lemma_supported_option_is_added(v: JobView)
    requires
        v.wf(),
        (v.phase is CheckOption),
    ensures
        ({
            let w = v.next(PrintEventOf::OptionChecked { supported: 1 });
            &&& w.action() is AddOption
            &&& v.action() is CheckOption
            &&& w.action()->AddOption_name == v.action()->CheckOption_name
            &&& w.action()->AddOption_value == v.action()->CheckOption_value
        }),
{
}

/// The option that the job checks first is its first request, and the option it checks after
/// adding one is the request that follows it.
pub proof fn lemma_options_checked_in_order(v: JobView)
    requires
        v.wf(),
        (v.phase is AddOption),
        v.phase->AddOption_index + 1 < v.requests.len(),
    ensures
        v.action() is AddOption,
        v.next(PrintEventOf::OptionAdded).action() is CheckOption,
        v.action()->AddOption_name == v.requests[v.phase->AddOption_index as int].0,
        v.next(PrintEventOf::OptionAdded).action()->CheckOption_name == v.requests[v.phase->AddOption_index
            + 1].0,
        v.next(PrintEventOf::OptionAdded).action()->CheckOption_value == v.requests[v.phase->AddOption_index
            + 1].1,
{
}

/// The CUPS names and values of option requests.
pub open spec fn request_pairs(requests: Seq<RequestView>) -> Seq<(Seq<char>, Seq<char>)> {
    requests.map_values(|r: RequestView| (r.0, r.1))
}

/// The options, by CUPS name and value, that a job adds to its options over a sequence of
/// events, in order: the option of each add that is answered.
pub open spec fn options_added(v: JobView, events: Seq<EventView>) -> Seq<(Seq<char>, Seq<char>)>
    decreases events.len(),
{
    if events.len() == 0 {
        Seq::empty()
    } else {
        (if events[0] is OptionAdded && v.action() is AddOption {
            seq![(v.action()->AddOption_name, v.action()->AddOption_value)]
        } else {
            Seq::empty()
        }) + options_added(v.next(events[0]), events.drop_first())
    }
}

/// Whether a job is past its options: it no longer checks or adds them and is not waiting to
/// be created.
pub open spec fn past_options(v: JobView) -> bool {
    !(v.phase is CheckOption) && !(v.phase is AddOption) && !(v.phase is CreateJob)
}

/// A job past its options never comes back to them.
proof fn lemma_past_options_is_final(v: JobView, events: Seq<EventView>)
    requires
        v.wf(),
        past_options(v),
    ensures
        past_options(run(v, events)),
    decreases events.len(),
{
    if events.len() > 0 {
        lemma_next_keeps_wf(v, events[0]);
        lemma_past_options_is_final(v.next(events[0]), events.drop_first());
    }
}

/// The position of the first option request that a job has yet to add.
pub open spec fn next_option(v: JobView) -> int {
    match v.phase {
        JobPhase::CheckOption { index } => index as int,
        JobPhase::AddOption { index } => index as int,
        _ => v.requests.len() as int,
    }
}

/// Whatever events bring a job to its creation, it added the option requests it had yet to
/// add, each once, in order.
proof fn lemma_options_added_up_to_creation(v: JobView, events: Seq<EventView>)
    requires
        v.wf(),
        (run(v, events).phase is CreateJob),
    ensures
        options_added(v, events) == request_pairs(v.requests).subrange(
            next_option(v),
            v.requests.len() as int,
        ),
    decreases events.len(),
{
    let pairs = request_pairs(v.requests);
    let n = v.requests.len() as int;
    if past_options(v) {
        lemma_past_options_is_final(v, events);
    } else if events.len() == 0 {
        assert(pairs.subrange(n, n) =~= Seq::empty());
    } else {
        let e = events[0];
        let v1 = v.next(e);
        let rest = events.drop_first();
        lemma_next_keeps_wf(v, e);
        assert(run(v, events) == run(v1, rest));
        if v1.is_finished() {
            lemma_run_finished_is_final(v1, rest);
        } else if past_options(v1) {
            lemma_past_options_is_final(v1, rest);
        } else {
            lemma_options_added_up_to_creation(v1, rest);
            assert(v1.requests == v.requests);
            if e is OptionAdded && v.action() is AddOption {
                let i = next_option(v);
                assert(pairs[i] == (v.requests[i].0, v.requests[i].1));
                assert(seq![(v.action()->AddOption_name, v.action()->AddOption_value)] + pairs.subrange(
                    i + 1,
                    n,
                ) =~= pairs.subrange(i, n));
            } else {
                assert(Seq::<(Seq<char>, Seq<char>)>::empty() + pairs.subrange(next_option(v1), n)
                    =~= pairs.subrange(next_option(v), n));
            }
        }
    }
}

/// Whatever events bring a job that [`print`] starts to its creation, the options it added are
/// exactly its option requests, by CUPS name and value, each once and in order; so every
/// requested option was checked and found supported.
pub proof fn lemma_job_created_with_every_option(
    requests: Seq<RequestView>,
    documents: nat,
    events: Seq<EventView>,
)
    requires
        JobView::initial(requests, documents).wf(),
        (run(JobView::initial(requests, documents), events).phase is CreateJob),
    ensures
        options_added(JobView::initial(requests, documents), events) == request_pairs(requests),
{
    let init = JobView::initial(requests, documents);
    lemma_options_added_up_to_creation(init, events);
    assert(request_pairs(requests).subrange(0, requests.len() as int) =~= request_pairs(
        requests,
    ));
}

} // verus!
