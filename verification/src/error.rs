use vstd::prelude::*;

verus! {

/// The failures the planning steps can report.
///
/// `Parse` covers an unreadable or malformed manifest file, `Schema` a
/// metadata block that does not have the expected shape, `NoDefaultMember`
/// a workspace without a buildable package, `NoBinary` a manifest without a
/// binary entry, `BuildFailed` a build invocation that exited unsuccessfully
/// (carrying its exit code when the platform reported one), and `Packaging`
/// a failure reported by the packaging backend.
#[derive(Debug, Clone)]
pub enum PackError {
    Parse { detail: String },
    Schema { detail: String },
    NoDefaultMember,
    NoBinary,
    BuildFailed { code: Option<i32> },
    Packaging { detail: String },
}

/// The description of each error kind, as the build command words it; the
/// pack command words a missing default member differently (see
/// `pack_error_message`).
pub open spec fn spec_message(e: PackError) -> Seq<char> {
    match e {
        PackError::Parse { .. } => "failed to read the project manifest"@,
        PackError::Schema { .. } => "failed to deserialize package metadata"@,
        PackError::NoDefaultMember => "No default members found in workspace"@,
        PackError::NoBinary => "no binary entry found in the package manifest"@,
        PackError::BuildFailed { .. } => "Build failed"@,
        PackError::Packaging { .. } => "failed to package"@,
    }
}

impl PackError {
    /// A short description of the error kind, for reporting at the
    /// command line entry point.
    pub fn message(&self) -> (r: String)
        ensures
            r@ == spec_message(*self),
    {
        match self {
            PackError::Parse { .. } => String::from_str("failed to read the project manifest"),
            PackError::Schema { .. } => String::from_str("failed to deserialize package metadata"),
            PackError::NoDefaultMember => String::from_str("No default members found in workspace"),
            PackError::NoBinary => String::from_str("no binary entry found in the package manifest"),
            PackError::BuildFailed { .. } => String::from_str("Build failed"),
            PackError::Packaging { .. } => String::from_str("failed to package"),
        }
    }

    /// The exit code carried by a failed build, if any.
    pub fn exit_code(&self) -> (r: Option<i32>)
        ensures
            self matches PackError::BuildFailed { code } ==> r == code,
            !(self is BuildFailed) ==> r is None,
    {
        match self {
            PackError::BuildFailed { code } => *code,
            _ => None,
        }
    }
}

} // verus!
