//! Validation of the two paths of a command line.
//!
//! Whether a path exists and what it points at is for the caller to find
//! out; the rules that turn those facts into a verdict are here.

use vstd::prelude::*;

verus! {

/// Why a path was turned down.
#[derive(Clone, Copy, Debug, PartialEq, Eq, Structural)]
pub enum PathError {
    /// No input path was given.
    InputEmpty,
    /// Nothing exists at the input path.
    InputMissing,
    /// The input path points at a directory.
    InputIsDirectory,
    /// No output path was given.
    OutputEmpty,
    /// Nothing exists at the output path.
    OutputMissing,
    /// The output path points at something that is no directory.
    OutputNotDirectory,
}

/// The verdict on an input path, from its text and from what the file
/// system says of it: it must be given, exist, and be no directory. The
/// first rule that is broken names the error.
pub open spec fn input_verdict(path: Seq<char>, exists: bool, is_dir: bool) -> Result<
    Seq<char>,
    PathError,
> {
    if path.len() == 0 {
        Err(PathError::InputEmpty)
    } else if !exists {
        Err(PathError::InputMissing)
    } else if is_dir {
        Err(PathError::InputIsDirectory)
    } else {
        Ok(path)
    }
}

/// The verdict on an output path, from its text and from what the file
/// system says of it: it must be given, exist, and be a directory. The
/// first rule that is broken names the error.
pub open spec fn output_verdict(path: Seq<char>, exists: bool, is_dir: bool) -> Result<
    Seq<char>,
    PathError,
> {
    if path.len() == 0 {
        Err(PathError::OutputEmpty)
    } else if !exists {
        Err(PathError::OutputMissing)
    } else if !is_dir {
        Err(PathError::OutputNotDirectory)
    } else {
        Ok(path)
    }
}

/// The model of a validation's answer.
pub open spec fn verdict_view(verdict: Result<String, PathError>) -> Result<Seq<char>, PathError> {
    match verdict {
        Ok(path) => Ok(path@),
        Err(error) => Err(error),
    }
}

/// What the text of an error says.
pub open spec fn error_text(error: PathError) -> Seq<char> {
    match error {
        PathError::InputEmpty => "No input path was specified!"@,
        PathError::InputMissing => "Specified input file path does not exist!"@,
        PathError::InputIsDirectory => "Expected file in input path, found directory instead."@,
        PathError::OutputEmpty => "No output path was specified!"@,
        PathError::OutputMissing => "Specified output directory path does not exist!"@,
        PathError::OutputNotDirectory => "Output path needs to be a directory!"@,
    }
}

impl PathError {
    /// The error in words.
    pub fn message(&self) -> (text: &'static str)
        ensures
            text@ == error_text(*self),
    {
        match self {
            PathError::InputEmpty => "No input path was specified!",
            PathError::InputMissing => "Specified input file path does not exist!",
            PathError::InputIsDirectory => "Expected file in input path, found directory instead.",
            PathError::OutputEmpty => "No output path was specified!",
            PathError::OutputMissing => "Specified output directory path does not exist!",
            PathError::OutputNotDirectory => "Output path needs to be a directory!",
        }
    }

    /// Whether the error is about the input path; the others are about the
    /// output path.
    pub open spec fn concerns_input(self) -> bool {
        self == PathError::InputEmpty || self == PathError::InputMissing || self
            == PathError::InputIsDirectory
    }
}

/// Validates the input path. `exists` says whether anything exists at the
/// path and `is_dir` whether that is a directory.
pub fn parse_input_path(path: String, exists: bool, is_dir: bool) -> (verdict: Result<
    String,
    PathError,
>)
    ensures
        verdict_view(verdict) == input_verdict(path@, exists, is_dir),
{
    if path.as_str().is_empty() {
        Err(PathError::InputEmpty)
    } else if !exists {
        Err(PathError::InputMissing)
    } else if is_dir {
        Err(PathError::InputIsDirectory)
    } else {
        Ok(path)
    }
}

/// Validates the output path. `exists` says whether anything exists at the
/// path and `is_dir` whether that is a directory.
pub fn parse_output_path(path: String, exists: bool, is_dir: bool) -> (verdict: Result<
    String,
    PathError,
>)
    ensures
        verdict_view(verdict) == output_verdict(path@, exists, is_dir),
{
    if path.as_str().is_empty() {
        Err(PathError::OutputEmpty)
    } else if !exists {
        Err(PathError::OutputMissing)
    } else if !is_dir {
        Err(PathError::OutputNotDirectory)
    } else {
        Ok(path)
    }
}

/// An input path is accepted exactly when it is given and points at
/// something that exists and is no directory; an output path exactly when
/// it is given and points at a directory that exists. A path that is turned
/// down is turned down with an error about its own side.
pub proof fn lemma_path_rules(path: Seq<char>, exists: bool, is_dir: bool)
    ensures
        input_verdict(path, exists, is_dir) is Ok <==> path.len() > 0 && exists && !is_dir,
        output_verdict(path, exists, is_dir) is Ok <==> path.len() > 0 && exists && is_dir,
        input_verdict(path, exists, is_dir) matches Ok(kept) ==> kept == path,
        output_verdict(path, exists, is_dir) matches Ok(kept) ==> kept == path,
        input_verdict(path, exists, is_dir) matches Err(error) ==> error.concerns_input(),
        output_verdict(path, exists, is_dir) matches Err(error) ==> !error.concerns_input(),
{
}

} // verus!
