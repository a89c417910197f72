use vstd::prelude::*;
use crate::error::PackError;

verus! {

/// The arguments of the build subcommand: the release toggle and the
/// extra arguments passed through to the build tool.
#[derive(Debug, Clone, PartialEq)]
pub struct BuildArgs {
    pub release: bool,
    pub additional_args: Vec<String>,
}

/// Assemble the argument list of the build invocation (the arguments
/// handed to the build tool, after the tool's own name): the build verb,
/// the package selection, the release flag when asked for, and the
/// pass-through arguments in order.
pub fn build_command_args(args: &BuildArgs, package_name: &str) -> (r: Vec<String>)
    ensures
        ({
            let off: int = if args.release {
                4int
            } else {
                3int
            };
            &&& r@.len() == off + args.additional_args@.len()
            &&& r@[0]@ == "build"@
            &&& r@[1]@ == "--package"@
            &&& r@[2]@ == package_name@
            &&& (args.release ==> r@[3]@ == "--release"@)
            &&& forall|i: int|
                0 <= i < args.additional_args@.len() ==> (#[trigger] r@[off + i])@
                    == args.additional_args@[i]@
        }),
{
    let mut r: Vec<String> = Vec::new();
    r.push(String::from_str("build"));
    r.push(String::from_str("--package"));
    r.push(String::from_str(package_name));
    if args.release {
        r.push(String::from_str("--release"));
    }
    let ghost off: int = if args.release {
        4int
    } else {
        3int
    };
    let mut idx: usize = 0;
    while idx < args.additional_args.len()
        invariant
            idx <= args.additional_args@.len(),
            r@.len() == off + idx,
            off == if args.release {
                4int
            } else {
                3int
            },
            r@[0]@ == "build"@,
            r@[1]@ == "--package"@,
            r@[2]@ == package_name@,
            args.release ==> r@[3]@ == "--release"@,
            forall|j: int|
                0 <= j < idx ==> (#[trigger] r@[off + j])@ == args.additional_args@[j]@,
        decreases args.additional_args@.len() - idx,
    {
        let arg = args.additional_args[idx].clone();
        r.push(arg);
        idx += 1;
    }
    r
}

/// Interpret the build tool's exit: a successful exit yields the message
/// to report, an unsuccessful one the error carrying the exit code, so
/// the success message is never produced for a failed build.
pub fn build_outcome(success: bool, code: Option<i32>) -> (r: Result<String, PackError>)
    ensures
        success <==> r is Ok,
        r matches Ok(m) ==> m@ == "Build completed successfully!"@,
        r matches Err(e) ==> e matches PackError::BuildFailed { code: c } && c == code,
{
    if success {
        Ok(String::from_str("Build completed successfully!"))
    } else {
        Err(PackError::BuildFailed { code })
    }
}

} // verus!
