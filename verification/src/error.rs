//! The closed set of failures a pipeline run can end in.

use vstd::prelude::*;

verus! {

/// Everything that can go wrong while a profile is resolved and its filters are run.
///
/// Variants that wrap another error keep it as `cause`, so that the innermost
/// failure is never lost while each layer adds what it knows (which filter,
/// which path).
#[derive(Debug, PartialEq, Eq)]
pub enum RglError {
    /// A step names a filter that the run context does not know.
    UnknownFilter { filter_name: String },
    /// A step names a profile that the run context does not know.
    UnknownProfile { profile_name: String },
    /// The export target of a profile is not one of the recognized values.
    InvalidExportTarget { target: String },
    /// A nested step leads back to the profile that the run was started on.
    CircularProfileReference { profile_name: String },
    /// The definition of a filter cannot be used as it stands.
    InvalidFilterDefinition { filter_name: String, cause: Box<RglError> },
    /// A path that must exist does not.
    PathNotExists { path: String },
    /// Fetching the dependencies of a filter failed.
    DependencyInstallFailed { filter_name: String, cause: Box<RglError> },
    /// The program of a filter ran and reported failure.
    FilterRunFailed { filter_name: String },
    /// A step of the pipeline failed; `cause` says how.
    FilterFailed { filter_name: String, cause: Box<RglError> },
    /// An external program could not be started or waited for.
    Subprocess { cause: Box<RglError> },
    /// A failure of the operating system or of an encoder, kept as its message.
    Wrap { message: String },
}

pub type RglResult<T> = Result<T, RglError>;

/// The mathematical content of an [`RglError`]: the same shape, with every
/// string replaced by its sequence of characters.
pub ghost enum ErrorView {
    UnknownFilter { filter_name: Seq<char> },
    UnknownProfile { profile_name: Seq<char> },
    InvalidExportTarget { target: Seq<char> },
    CircularProfileReference { profile_name: Seq<char> },
    InvalidFilterDefinition { filter_name: Seq<char>, cause: Box<ErrorView> },
    PathNotExists { path: Seq<char> },
    DependencyInstallFailed { filter_name: Seq<char>, cause: Box<ErrorView> },
    FilterRunFailed { filter_name: Seq<char> },
    FilterFailed { filter_name: Seq<char>, cause: Box<ErrorView> },
    Subprocess { cause: Box<ErrorView> },
    Wrap { message: Seq<char> },
}

impl View for RglError {
    type V = ErrorView;

    open spec fn view(&self) -> ErrorView
        decreases self,
    {
        match self {
            RglError::UnknownFilter { filter_name } => ErrorView::UnknownFilter {
                filter_name: filter_name@,
            },
            RglError::UnknownProfile { profile_name } => ErrorView::UnknownProfile {
                profile_name: profile_name@,
            },
            RglError::InvalidExportTarget { target } => ErrorView::InvalidExportTarget {
                target: target@,
            },
            RglError::CircularProfileReference { profile_name } => {
                ErrorView::CircularProfileReference { profile_name: profile_name@ }
            },
            RglError::InvalidFilterDefinition { filter_name, cause } => {
                ErrorView::InvalidFilterDefinition {
                    filter_name: filter_name@,
                    cause: Box::new((**cause)@),
                }
            },
            RglError::PathNotExists { path } => ErrorView::PathNotExists { path: path@ },
            RglError::DependencyInstallFailed { filter_name, cause } => {
                ErrorView::DependencyInstallFailed {
                    filter_name: filter_name@,
                    cause: Box::new((**cause)@),
                }
            },
            RglError::FilterRunFailed { filter_name } => ErrorView::FilterRunFailed {
                filter_name: filter_name@,
            },
            RglError::FilterFailed { filter_name, cause } => ErrorView::FilterFailed {
                filter_name: filter_name@,
                cause: Box::new((**cause)@),
            },
            RglError::Subprocess { cause } => ErrorView::Subprocess { cause: Box::new((**cause)@) },
            RglError::Wrap { message } => ErrorView::Wrap { message: message@ },
        }
    }
}

impl ErrorView {
    /// The error that this one wraps, if it wraps one.
    pub open spec fn cause(self) -> Option<ErrorView> {
        match self {
            ErrorView::InvalidFilterDefinition { cause, .. } => Some(*cause),
            ErrorView::DependencyInstallFailed { cause, .. } => Some(*cause),
            ErrorView::FilterFailed { cause, .. } => Some(*cause),
            ErrorView::Subprocess { cause } => Some(*cause),
            _ => None,
        }
    }

    /// How many errors are chained below this one.
    pub open spec fn depth(self) -> nat
        decreases self,
    {
        match self {
            ErrorView::InvalidFilterDefinition { cause, .. } => 1 + cause.depth(),
            ErrorView::DependencyInstallFailed { cause, .. } => 1 + cause.depth(),
            ErrorView::FilterFailed { cause, .. } => 1 + cause.depth(),
            ErrorView::Subprocess { cause } => 1 + cause.depth(),
            _ => 0,
        }
    }
}

impl RglError {
    /// The error that this one wraps, if it wraps one.
    pub fn cause(&self) -> (inner: Option<&RglError>)
        ensures
            match inner {
                Some(e) => self@.cause() == Some(e@),
                None => self@.cause() is None,
            },
    {
        match self {
            RglError::InvalidFilterDefinition { cause, .. } => Some(&**cause),
            RglError::DependencyInstallFailed { cause, .. } => Some(&**cause),
            RglError::FilterFailed { cause, .. } => Some(&**cause),
            RglError::Subprocess { cause } => Some(&**cause),
            _ => None,
        }
    }

    /// The innermost error of the chain: the failure that started it.
    pub fn root_cause(&self) -> (inner: &RglError)
        ensures
            inner@.cause() is None,
            inner@ == innermost(self@),
        decreases self@.depth(),
    {
        match self.cause() {
            Some(e) => e.root_cause(),
            None => self,
        }
    }
}

/// The last error of the chain that starts at `e`.
pub open spec fn innermost(e: ErrorView) -> ErrorView
    decreases e.depth(),
{
    match e.cause() {
        Some(inner) => innermost(inner),
        None => e,
    }
}

} // verus!
