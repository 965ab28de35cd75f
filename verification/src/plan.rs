use vstd::prelude::*;

use crate::errors::PatchError;
use crate::paths::NodePath;

verus! {

/// What stands at the requested output path before the run.
#[derive(Clone, Copy, Debug, PartialEq, Eq, Structural)]
pub enum FsKind {
    /// Nothing exists there.
    Missing,
    /// A regular file.
    File,
    /// A directory.
    Dir,
    /// Something else that exists (a socket, a fifo): it is neither removed
    /// nor an obstacle — later steps may still fail on it.
    Other,
}

/// What must happen to the output path before any copying starts.
#[derive(Debug, PartialEq, Eq)]
pub enum PreStep {
    /// Leave the path alone.
    Keep,
    /// Remove the single file standing there.
    RemoveFile(NodePath),
    /// Remove the directory standing there, recursively.
    RemoveDirAll(NodePath),
}

/// The resolved output location and the clearing step that precedes all
/// copying and signing.
#[derive(Debug, PartialEq, Eq)]
pub struct OutputDecision {
    pub output: NodePath,
    pub pre: PreStep,
}

/// Decide where the patched result goes and whether the way must be cleared
/// first.
///
/// In-place mode patches the input itself and ignores the requested output
/// entirely. Otherwise an output path is required; one that already exists is
/// cleared (file or directory, as found) only under `force`, and aborts the
/// run otherwise, before any copy or signing step.
pub fn resolve_output(
    inplace: bool,
    force: bool,
    input: &NodePath,
    requested: Option<&NodePath>,
    requested_kind: FsKind,
) -> (r: Result<OutputDecision, PatchError>)
    ensures
        inplace ==> (r matches Ok(d) && d.output@ == input@ && d.pre is Keep),
        !inplace && requested is None ==> (r matches Err(e) && e == PatchError::MissingOutputPath),
        !inplace ==> (requested matches Some(o) ==> {
            &&& requested_kind is Missing ==> (r matches Ok(d) && d.output@ == o@ && d.pre is Keep)
            &&& !(requested_kind is Missing) && !force ==> (r matches Err(e) && e
                == PatchError::OutputAlreadyExists)
            &&& requested_kind is File && force ==> (r matches Ok(d) && d.output@ == o@ && (d.pre
                matches PreStep::RemoveFile(t) && t@ == o@))
            &&& requested_kind is Dir && force ==> (r matches Ok(d) && d.output@ == o@ && (d.pre
                matches PreStep::RemoveDirAll(t) && t@ == o@))
            &&& requested_kind is Other && force ==> (r matches Ok(d) && d.output@ == o@ && d.pre
                is Keep)
        }),
{
    if inplace {
        return Ok(OutputDecision { output: input.clone(), pre: PreStep::Keep });
    }
    match requested {
        None => Err(PatchError::MissingOutputPath),
        Some(o) => {
            match requested_kind {
                FsKind::Missing => Ok(OutputDecision { output: o.clone(), pre: PreStep::Keep }),
                FsKind::File => {
                    if force {
                        Ok(OutputDecision { output: o.clone(), pre: PreStep::RemoveFile(o.clone()) })
                    } else {
                        Err(PatchError::OutputAlreadyExists)
                    }
                },
                FsKind::Dir => {
                    if force {
                        Ok(
                            OutputDecision {
                                output: o.clone(),
                                pre: PreStep::RemoveDirAll(o.clone()),
                            },
                        )
                    } else {
                        Err(PatchError::OutputAlreadyExists)
                    }
                },
                FsKind::Other => {
                    if force {
                        Ok(OutputDecision { output: o.clone(), pre: PreStep::Keep })
                    } else {
                        Err(PatchError::OutputAlreadyExists)
                    }
                },
            }
        },
    }
}

/// One step of the patching pipeline, ready for an interpreter that performs
/// the filesystem and signer work.
#[derive(Debug, PartialEq, Eq)]
pub enum Action {
    /// Copy the bundle directory tree at `from` to `to`, recursively.
    CopyTree { from: NodePath, to: NodePath },
    /// Create the parent directories of `of`, so a file copy to it can land.
    MakeParentDirs { of: NodePath },
    /// Copy the single file at `from` to `to`.
    CopyFile { from: NodePath, to: NodePath },
    /// Remove the code signature of the file or bundle at `at`.
    StripSignature { at: NodePath },
    /// Apply a fresh ad-hoc code signature, without entitlements, at `at`.
    SignAdHoc { at: NodePath },
}

/// Whether a step copies anything (or prepares a copy's landing place).
pub open spec fn is_copy_step(a: Action) -> bool {
    a is CopyTree || a is CopyFile || a is MakeParentDirs
}

/// Whether a step changes a code signature.
pub open spec fn is_signing_step(a: Action) -> bool {
    a is StripSignature || a is SignAdHoc
}

/// The path a step writes to.
pub open spec fn step_target(a: Action) -> Seq<Seq<u8>> {
    match a {
        Action::CopyTree { to, .. } => to@,
        Action::MakeParentDirs { of } => of@,
        Action::CopyFile { to, .. } => to@,
        Action::StripSignature { at } => at@,
        Action::SignAdHoc { at } => at@,
    }
}

/// The copy-mode bundle pipeline: copy the bundle tree `b` to `out` first,
/// then strip the signature there, then re-sign ad hoc.
pub open spec fn bundle_copy_plan(b: Seq<Seq<u8>>, out: Seq<Seq<u8>>, p: Seq<Action>) -> bool {
    &&& p.len() == 3
    &&& p[0] matches Action::CopyTree { from, to } && from@ == b && to@ == out
    &&& p[1] matches Action::StripSignature { at } && at@ == out
    &&& p[2] matches Action::SignAdHoc { at } && at@ == out
}

/// The in-place bundle pipeline: strip the signature at `out` (which is the
/// input itself), then re-sign ad hoc.
pub open spec fn bundle_inplace_plan(out: Seq<Seq<u8>>, p: Seq<Action>) -> bool {
    &&& p.len() == 2
    &&& p[0] matches Action::StripSignature { at } && at@ == out
    &&& p[1] matches Action::SignAdHoc { at } && at@ == out
}

/// The copy-mode executable pipeline: make room for the single file, copy the
/// input to `out`, strip the signature there — and deliberately do not
/// re-sign: only the bundle branch re-signs.
pub open spec fn macho_copy_plan(input: Seq<Seq<u8>>, out: Seq<Seq<u8>>, p: Seq<Action>) -> bool {
    &&& p.len() == 3
    &&& p[0] matches Action::MakeParentDirs { of } && of@ == out
    &&& p[1] matches Action::CopyFile { from, to } && from@ == input && to@ == out
    &&& p[2] matches Action::StripSignature { at } && at@ == out
}

/// The in-place executable pipeline: strip the signature at `out` (the input
/// itself), nothing more.
pub open spec fn macho_inplace_plan(out: Seq<Seq<u8>>, p: Seq<Action>) -> bool {
    &&& p.len() == 1
    &&& p[0] matches Action::StripSignature { at } && at@ == out
}

/// Plan the pipeline for the branch the discovery settled on.
///
/// A discovered bundle takes the bundle branch; otherwise a Mach-O input
/// takes the executable branch; otherwise there is nothing to patch. The
/// signing steps always act on `output` — which, in in-place mode, the
/// caller has resolved to the input path itself.
pub fn plan_patch(
    bundle: Option<&NodePath>,
    input_is_macho: bool,
    inplace: bool,
    input: &NodePath,
    output: &NodePath,
) -> (r: Result<Vec<Action>, PatchError>)
    ensures
        bundle matches Some(b) ==> (!inplace ==> (r matches Ok(p) && bundle_copy_plan(
            b@,
            output@,
            p@,
        ))),
        bundle is Some && inplace ==> (r matches Ok(p) && bundle_inplace_plan(output@, p@)),
        bundle is None && input_is_macho && !inplace ==> (r matches Ok(p) && macho_copy_plan(
            input@,
            output@,
            p@,
        )),
        bundle is None && input_is_macho && inplace ==> (r matches Ok(p) && macho_inplace_plan(
            output@,
            p@,
        )),
        bundle is None && !input_is_macho ==> (r matches Err(e) && e
            == PatchError::NoBundleOrExecutableFound),
{
    let mut steps: Vec<Action> = Vec::new();
    match bundle {
        Some(b) => {
            if !inplace {
                steps.push(Action::CopyTree { from: b.clone(), to: output.clone() });
            }
            steps.push(Action::StripSignature { at: output.clone() });
            steps.push(Action::SignAdHoc { at: output.clone() });
            Ok(steps)
        },
        None => {
            if input_is_macho {
                if !inplace {
                    steps.push(Action::MakeParentDirs { of: output.clone() });
                    steps.push(Action::CopyFile { from: input.clone(), to: output.clone() });
                }
                steps.push(Action::StripSignature { at: output.clone() });
                Ok(steps)
            } else {
                Err(PatchError::NoBundleOrExecutableFound)
            }
        },
    }
}

/// In a copy-mode bundle run, the copy of the bundle into the output is the
/// very first step: nothing precedes it, so the output receives the bundle
/// tree exactly as it stood, before any signature is stripped or applied.
pub proof fn lemma_bundle_copied_before_signing(
    b: Seq<Seq<u8>>,
    out: Seq<Seq<u8>>,
    p: Seq<Action>,
)
    requires
        bundle_copy_plan(b, out, p),
    ensures
        p[0] matches Action::CopyTree { from, to } && from@ == b && to@ == out,
        forall|i: int| 0 <= i < p.len() && is_signing_step(#[trigger] p[i]) ==> i > 0,
        forall|i: int| 0 < i < p.len() ==> !is_copy_step(#[trigger] p[i]),
{
}

/// An in-place run copies nothing, and every step — stripping and re-signing
/// alike — acts directly on the input path, to which the output resolved.
pub proof fn lemma_inplace_touches_only_input(
    input: Seq<Seq<u8>>,
    out: Seq<Seq<u8>>,
    p: Seq<Action>,
)
    requires
        out == input,
        bundle_inplace_plan(out, p) || macho_inplace_plan(out, p),
    ensures
        forall|i: int| 0 <= i < p.len() ==> !is_copy_step(#[trigger] p[i]),
        forall|i: int| 0 <= i < p.len() ==> step_target(#[trigger] p[i]) == input,
{
}

/// The executable branch never re-signs: after its one strip step (and, in
/// copy mode, the copy before it) no ad-hoc signature is applied.
pub proof fn lemma_executable_branch_never_resigns(
    input: Seq<Seq<u8>>,
    out: Seq<Seq<u8>>,
    p: Seq<Action>,
)
    requires
        macho_copy_plan(input, out, p) || macho_inplace_plan(out, p),
    ensures
        forall|i: int| 0 <= i < p.len() ==> !((#[trigger] p[i]) is SignAdHoc),
{
}

} // verus!
