//! The external-tool bridge and the output assembler's checks: the strictly
//! ordered swap-invoke-restore protocol around the binder, the post-process
//! rename of binder boilerplate, the merge of the binder's header with the
//! hand-emitted declarations, the sanity check that every tracked exported
//! name made it into the merged output, and the relative import path between
//! split output files.

use vstd::prelude::*;

use crate::errors::GenError;
use crate::text::{is_substr, joined, replaced, views_of, contains_str, join_strings, replace_all};

verus! {

/// Where the bridge protocol stands.
#[derive(Clone, Copy, PartialEq, Eq, Structural, Debug)]
pub enum BridgeState {
    /// Nothing touched yet; the generated native source is in place.
    Idle,
    /// The native source is overwritten with the binder's dummy variant.
    Swapped,
    /// The original source is back and the binder succeeded.
    Restored,
    /// The original source is back but the binder failed; the run aborts.
    Failed,
}

/// What happened outside.
#[derive(Clone, Copy, PartialEq, Eq, Structural, Debug)]
pub enum BridgeEvent {
    /// Begin the scoped acquisition.
    Acquire,
    /// The binder exited with this status.
    BinderExit(i32),
}

/// What the runner must do next.
#[derive(Clone, Copy, PartialEq, Eq, Structural, Debug)]
pub enum BridgeAction {
    /// Overwrite the generated source with the dummy variant.
    OverwriteSource,
    /// Put the original source back, unconditionally.
    RestoreSource,
    /// The protocol cannot accept this event here; do nothing.
    Reject,
}

/// One step of the bridge protocol. Restoration is decided here and it is
/// unconditional: whatever status the binder exits with, the very next
/// action is to put the original source back; only the resulting state
/// distinguishes success from failure.
pub fn bridge_step(s: BridgeState, e: BridgeEvent) -> (r: (BridgeState, BridgeAction))
    ensures
        s is Idle && e is Acquire ==> r == (BridgeState::Swapped, BridgeAction::OverwriteSource),
        (s is Swapped && e is BinderExit) ==> (r.1 == BridgeAction::RestoreSource && (
        e->BinderExit_0 == 0 ==> r.0 == BridgeState::Restored) && (e->BinderExit_0 != 0 ==> r.0
            == BridgeState::Failed)),
        !((s is Idle && e is Acquire) || (s is Swapped && e is BinderExit)) ==> r == (
            s,
            BridgeAction::Reject,
        ),
{
    match (s, e) {
        (BridgeState::Idle, BridgeEvent::Acquire) => (
            BridgeState::Swapped,
            BridgeAction::OverwriteSource,
        ),
        (BridgeState::Swapped, BridgeEvent::BinderExit(c)) => {
            if c == 0 {
                (BridgeState::Restored, BridgeAction::RestoreSource)
            } else {
                (BridgeState::Failed, BridgeAction::RestoreSource)
            }
        },
        _ => (s, BridgeAction::Reject),
    }
}

/// Output files may be written only after the source is restored and the
/// binder succeeded; in particular, never from the failed state.
pub fn may_write_outputs(s: &BridgeState) -> (r: bool)
    ensures
        r == (*s is Restored),
{
    match s {
        BridgeState::Restored => true,
        _ => false,
    }
}

/// Map the binder's exit status: zero is success, anything else aborts the
/// run with a tool invocation error carrying the status.
pub fn binder_outcome(exit_code: i32) -> (r: Result<(), GenError>)
    ensures
        r is Ok <==> exit_code == 0,
        r matches Err(e) ==> e matches GenError::ToolInvocation(c) && c == exit_code,
{
    if exit_code == 0 {
        Ok(())
    } else {
        Err(GenError::ToolInvocation(exit_code))
    }
}

/// Check every tracked exported name against the merged binder output: the
/// first absent name is fatal, and nothing may be written after that. The
/// check passes exactly when every name occurs in the merged text.
pub fn sanity_check(names: &Vec<String>, merged: &str) -> (r: Result<(), GenError>)
    ensures
        r is Ok <==> forall|i: int| 0 <= i < names@.len() ==> is_substr(merged@, names@[i]@),
        r matches Err(e) ==> e matches GenError::SanityCheck(n) && exists|i: int|
            0 <= i < names@.len() && names@[i]@ == n@ && !is_substr(merged@, #[trigger] names@[i]@),
{
    let n = names.len();
    let mut i: usize = 0;
    while i < n
        invariant
            n == names@.len(),
            i <= n,
            forall|k: int| 0 <= k < i ==> is_substr(merged@, names@[k]@),
        decreases n - i,
    {
        if !contains_str(merged, names[i].as_str()) {
            return Err(GenError::SanityCheck(names[i].clone()));
        }
        i = i + 1;
    }
    Ok(())
}

/// One hand-emitted declaration for a symbol the binder cannot see.
pub open spec fn spec_dummy_decl(n: Seq<char>) -> Seq<char> {
    "void "@ + n + "(void);"@
}

/// The hand-emitted declarations appended to the binder's header: one line
/// per tracked exported name, in order.
pub fn generate_dummy(names: &Vec<String>) -> (r: String)
    ensures
        r@ == joined(names@.map_values(|n: String| spec_dummy_decl(n@)), "\n"@),
{
    let n = names.len();
    let mut frags: Vec<String> = Vec::new();
    let mut i: usize = 0;
    while i < n
        invariant
            n == names@.len(),
            i <= n,
            frags@.len() == i,
            forall|k: int| 0 <= k < i ==> frags@[k]@ == spec_dummy_decl(names@[k]@),
        decreases n - i,
    {
        let mut piece = String::from_str("void ");
        piece.append(names[i].as_str());
        piece.append("(void);");
        frags.push(piece);
        i = i + 1;
    }
    proof {
        assert(views_of(frags@) =~~= names@.map_values(|s: String| spec_dummy_decl(s@)));
    }
    join_strings(&frags, "\n")
}

/// The final C header: the binder's own output, then the hand-emitted
/// declarations, separated by one newline.
pub fn merge_header(binder_output: &str, dummy: &str) -> (r: String)
    ensures
        r@ == binder_output@ + "\n"@ + dummy@,
{
    let mut out = String::from_str(binder_output);
    out.append("\n");
    out.append(dummy);
    out
}

/// The class name the binder writes into its transport declarations before
/// the rename.
pub open spec fn binder_class_marker() -> Seq<char> {
    "NativeLibrary"@
}

/// Post-process the binder's transport declarations: every occurrence of
/// the binder's own class name becomes the configured wire class name.
pub fn modify_dart_wire_content(content: &str, dart_wire_class_name: &str) -> (r: String)
    ensures
        r@ == replaced(content@, binder_class_marker(), dart_wire_class_name@),
{
    proof {
        reveal_strlit("NativeLibrary");
    }
    replace_all(content, "NativeLibrary", dart_wire_class_name)
}

/// The relative path from the second path to the first, as the path-diff
/// routine computes it from the two texts alone.
pub uninterp spec fn rel_path_of(path: Seq<char>, base: Seq<char>) -> Seq<char>;

/// Whether a relative path from the second path to the first exists at all:
/// the path-diff routine decides this from the two texts alone.
pub uninterp spec fn rel_path_defined(path: Seq<char>, base: Seq<char>) -> bool;

/// Relies on pathdiff::diff_paths: constructs the relative path from a base
/// directory path to a target path, a pure function of the two path texts;
/// it returns nothing exactly when no such path exists (the base is
/// absolute and the target is not, or a parent step cannot be matched).
#[verifier::external_body]
fn diff_paths_str(path: &str, base: &str) -> (r: Option<String>)
    ensures
        r is Some <==> rel_path_defined(path@, base@),
        r matches Some(s) ==> s@ == rel_path_of(path@, base@),
{
    pathdiff::diff_paths(std::path::Path::new(path), std::path::Path::new(base)).map(
        |p| p.to_string_lossy().into_owned(),
    )
}

/// The import line written into the implementation file for a relative
/// path to the declaration file.
pub fn import_line(rel: &str) -> (r: String)
    ensures
        r@ == "import \""@ + rel@ + "\";"@,
{
    let mut out = String::from_str("import \"");
    out.append(rel);
    out.append("\";");
    out
}

/// The import of the declaration file from the implementation file's
/// directory; it exists exactly when a relative path between the two does.
pub fn decl_file_import(decl_path: &str, out_dir: &str) -> (r: Option<String>)
    ensures
        r is Some <==> rel_path_defined(decl_path@, out_dir@),
        r matches Some(s) ==> s@ == "import \""@ + rel_path_of(decl_path@, out_dir@) + "\";"@,
{
    match diff_paths_str(decl_path, out_dir) {
        Some(rel) => Some(import_line(rel.as_str())),
        None => None,
    }
}

} // verus!
