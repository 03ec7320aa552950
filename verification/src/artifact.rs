use vstd::prelude::*;

use crate::error::LoadError;

verus! {

/// A guest entrypoint the host requires of every component. Loading fails
/// with `MissingExport` unless the artifact exports all four.
#[derive(Clone, Copy, Debug, PartialEq, Eq, Structural)]
pub enum EntryPoint {
    /// Build the application value from state bytes.
    Construct,
    /// Produce the view tree and return its root handle.
    View,
    /// Invoke a closure by handle, without a payload.
    Call,
    /// Invoke a closure by handle, with a serialized payload.
    CallWith,
}

/// A capability an artifact imports. The engine maps each import name it
/// finds to the catalog entry it matches, or to `Unknown` for a
/// capability this host does not provide.
#[derive(Clone, Copy, Debug, PartialEq, Eq, Structural)]
pub enum Import {
    Text,
    Column,
    Button,
    Checkbox,
    Closure,
    Element,
    Unknown,
}

/// What the engine's parse of a binary artifact yielded: the entrypoints
/// it exports and the capabilities it imports. A file that did not parse
/// as a well-formed component has no such description, and `validate`
/// takes `None`.
pub struct ArtifactInfo {
    pub exports: Vec<EntryPoint>,
    pub imports: Vec<Import>,
}

/// Every entrypoint the host requires is among the exports.
pub open spec fn exports_complete(exports: Seq<EntryPoint>) -> bool {
    &&& exports.contains(EntryPoint::Construct)
    &&& exports.contains(EntryPoint::View)
    &&& exports.contains(EntryPoint::Call)
    &&& exports.contains(EntryPoint::CallWith)
}

/// Every import is a capability of the host's catalog.
pub open spec fn imports_known(imports: Seq<Import>) -> bool {
    forall|i: int| 0 <= i < imports.len() ==> #[trigger] imports[i] != Import::Unknown
}

/// The load outcome an artifact deserves, given what the engine's parse
/// yielded: `Malformed` if it did not parse, `MissingExport` if a
/// required entrypoint is absent, `ImportMismatch` if it expects a
/// capability the host does not provide — in that order — and fit to
/// instantiate otherwise.
pub open spec fn spec_validate(artifact: Option<ArtifactInfo>) -> Result<(), LoadError> {
    match artifact {
        None => Err(LoadError::Malformed),
        Some(info) => if !exports_complete(info.exports@) {
            Err(LoadError::MissingExport)
        } else if !imports_known(info.imports@) {
            Err(LoadError::ImportMismatch)
        } else {
            Ok(())
        },
    }
}

fn has_export(exports: &Vec<EntryPoint>, e: EntryPoint) -> (b: bool)
    ensures
        b == exports@.contains(e),
{
    let n = exports.len();
    let mut i: usize = 0;
    while i < n
        invariant
            n == exports@.len(),
            i <= n,
            forall|k: int| 0 <= k < i ==> exports@[k] != e,
        decreases n - i,
    {
        if exports[i] == e {
            proof {
                assert(exports@[i as int] == e);
            }
            return true;
        }
        i += 1;
    }
    false
}

/// Checks an artifact against the host's requirements; the whole load is
/// all-or-nothing, so a failure here means no instance is created at all.
pub fn validate(artifact: &Option<ArtifactInfo>) -> (r: Result<(), LoadError>)
    ensures
        r == spec_validate(*artifact),
{
    let info = match artifact {
        None => {
            return Err(LoadError::Malformed);
        },
        Some(info) => info,
    };
    if !(has_export(&info.exports, EntryPoint::Construct) && has_export(
        &info.exports,
        EntryPoint::View,
    ) && has_export(&info.exports, EntryPoint::Call) && has_export(
        &info.exports,
        EntryPoint::CallWith,
    )) {
        return Err(LoadError::MissingExport);
    }
    let n = info.imports.len();
    let mut i: usize = 0;
    while i < n
        invariant
            n == info.imports@.len(),
            i <= n,
            *artifact == Some(*info),
            exports_complete(info.exports@),
            forall|k: int| 0 <= k < i ==> #[trigger] info.imports@[k] != Import::Unknown,
        decreases n - i,
    {
        if info.imports[i] == Import::Unknown {
            proof {
                assert(info.imports@[i as int] == Import::Unknown);
            }
            return Err(LoadError::ImportMismatch);
        }
        i += 1;
    }
    Ok(())
}

impl ArtifactInfo {
    /// The description of a well-formed artifact that exports all four
    /// entrypoints and imports the whole catalog.
    pub fn complete() -> (info: ArtifactInfo)
        ensures
            spec_validate(Some(info)) is Ok,
    {
        let mut exports: Vec<EntryPoint> = Vec::new();
        exports.push(EntryPoint::Construct);
        exports.push(EntryPoint::View);
        exports.push(EntryPoint::Call);
        exports.push(EntryPoint::CallWith);
        let mut imports: Vec<Import> = Vec::new();
        imports.push(Import::Text);
        imports.push(Import::Column);
        imports.push(Import::Button);
        imports.push(Import::Checkbox);
        imports.push(Import::Closure);
        imports.push(Import::Element);
        proof {
            assert(exports@.contains(EntryPoint::Construct)) by {
                assert(exports@[0] == EntryPoint::Construct);
            }
            assert(exports@.contains(EntryPoint::View)) by {
                assert(exports@[1] == EntryPoint::View);
            }
            assert(exports@.contains(EntryPoint::Call)) by {
                assert(exports@[2] == EntryPoint::Call);
            }
            assert(exports@.contains(EntryPoint::CallWith)) by {
                assert(exports@[3] == EntryPoint::CallWith);
            }
        }
        ArtifactInfo { exports, imports }
    }
}

} // verus!
