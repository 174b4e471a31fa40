//! The tally of a batch of validations: how many inputs passed, which
//! failed and why, and the exit status that the batch ends with.
use vstd::prelude::*;


verus! {

pub struct ReportView {
    pub total_files: nat,
    pub successful: nat,
    pub failed: nat,
    pub errors: Seq<(Seq<char>, Seq<char>)>,
}

/// The outcome of validating a batch of inputs.
pub struct ValidationReport {
    total_files: usize,
    successful: usize,
    failed: usize,
    errors: Vec<(String, String)>,
}

impl View for ValidationReport {
    type V = ReportView;

    closed spec fn view(&self) -> ReportView {
        ReportView {
            total_files: self.total_files as nat,
            successful: self.successful as nat,
            failed: self.failed as nat,
            errors: Seq::new(self.errors@.len(), |k: int| (self.errors@[k].0@, self.errors@[k].1@)),
        }
    }
}

impl ValidationReport {
    pub fn new() -> (r: ValidationReport)
        ensures
            r@.total_files == 0,
            r@.successful == 0,
            r@.failed == 0,
            r@.errors.len() == 0,
    {
        ValidationReport { total_files: 0, successful: 0, failed: 0, errors: Vec::new() }
    }

    /// Records an input that passed.
    pub fn add_success(&mut self)
        requires
            old(self)@.total_files < usize::MAX,
            old(self)@.successful < usize::MAX,
        ensures
            final(self)@ == (ReportView {
                total_files: old(self)@.total_files + 1,
                successful: old(self)@.successful + 1,
                ..old(self)@
            }),
    {
        self.total_files = self.total_files + 1;
        self.successful = self.successful + 1;
    }

    /// Records an input that failed, with its name and the message of its
    /// error.
    pub fn add_error(&mut self, file: String, error: String)
        requires
            old(self)@.total_files < usize::MAX,
            old(self)@.failed < usize::MAX,
        ensures
            final(self)@ == (ReportView {
                total_files: old(self)@.total_files + 1,
                failed: old(self)@.failed + 1,
                errors: old(self)@.errors.push((file@, error@)),
                ..old(self)@
            }),
    {
        let ghost before = self@.errors;
        self.total_files = self.total_files + 1;
        self.failed = self.failed + 1;
        self.errors.push((file, error));
        assert(self@.errors =~= before.push((file@, error@)));
    }

    /// Whether any input failed.
    pub fn has_errors(&self) -> (r: bool)
        ensures
            r == (self@.failed > 0),
    {
        self.failed > 0
    }

    /// The exit status of the batch: nonzero exactly when an input failed.
    pub fn exit_code(&self) -> (r: i32)
        ensures
            r == (if self@.failed > 0 {
                1i32
            } else {
                0i32
            }),
    {
        if self.has_errors() {
            1
        } else {
            0
        }
    }

    pub fn total_files(&self) -> (r: usize)
        ensures
            r == self@.total_files,
    {
        self.total_files
    }

    pub fn successful(&self) -> (r: usize)
        ensures
            r == self@.successful,
    {
        self.successful
    }

    pub fn failed(&self) -> (r: usize)
        ensures
            r == self@.failed,
    {
        self.failed
    }

    /// The failed inputs, in the order they were recorded.
    pub fn errors(&self) -> (r: &Vec<(String, String)>)
        ensures
            r@.len() == self@.errors.len(),
            forall|k: int|
                0 <= k < r@.len() ==> (#[trigger] r@[k]).0@ == self@.errors[k].0 && r@[k].1@
                    == self@.errors[k].1,
    {
        &self.errors
    }
}

} // verus!
