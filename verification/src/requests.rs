//! Checks of fold requests from the editor before any geometry is computed; each
//! refusal comes with the message shown to the user, and the checks come in a fixed
//! order so that a request with several faults always gets the same answer.
use vstd::prelude::*;
use vstd::string::*;

use crate::edits::texts;
use crate::model::{Document, TechniqueKind};
use crate::steps::{check_insert_point, insert_notices, msg_insert_out_of_range};

verus! {

/// "The pleat count and individual sheets cannot be given together".
pub open spec fn msg_count_and_layers() -> Seq<char> {
    "折るひだの枚数と個別の紙を同時には指定できません"@
}

/// "The pleat count and a grip point in 3D cannot be given together".
pub open spec fn msg_count_and_grip() -> Seq<char> {
    "折るひだの枚数と3D上のつかみ位置を同時には指定できません"@
}

/// "Reproducing a folded shape and a grip point in 3D cannot be given together".
pub open spec fn msg_pose_and_grip() -> Seq<char> {
    "折った形の再現と3D上のつかみ位置を、同時には指定できません"@
}

/// "This technique cannot be chosen yet; use manual folds instead".
pub open spec fn msg_technique_unavailable() -> Seq<char> {
    "この折り方はまだ選べません。手動の折り操作で代替してください"@
}

/// What a fold-through request is answered before any geometry: the insertion point is
/// checked first, then a pleat count given together with individual sheets, then a
/// pleat count given together with a grip point.
pub open spec fn fold_request_verdict(
    len: nat,
    up_to: nat,
    layers_given: bool,
    count_given: bool,
    grip_given: bool,
) -> Result<Seq<Seq<char>>, Seq<char>> {
    if up_to > len {
        Err(msg_insert_out_of_range(up_to))
    } else if layers_given && count_given {
        Err(msg_count_and_layers())
    } else if count_given && grip_given {
        Err(msg_count_and_grip())
    } else {
        Ok(insert_notices(up_to, len))
    }
}

/// The answer of a request check seen through the texts of its messages.
pub open spec fn request_view(r: Result<Vec<String>, String>) -> Result<Seq<Seq<char>>, Seq<char>> {
    match r {
        Ok(w) => Ok(texts(w@)),
        Err(e) => Err(e@),
    }
}

/// Checks a fold-through request (or its preview) before any geometry, and gives the
/// notices of its insertion point.
pub fn check_fold_through_request(
    doc: &Document,
    up_to: usize,
    layers_given: bool,
    count_given: bool,
    grip_given: bool,
) -> (r: Result<Vec<String>, String>)
    ensures
        request_view(r) == fold_request_verdict(
            doc@.sequence.len(),
            up_to as nat,
            layers_given,
            count_given,
            grip_given,
        ),
{
    let notices = check_insert_point(doc, up_to)?;
    if layers_given && count_given {
        return Err(String::from_str("折るひだの枚数と個別の紙を同時には指定できません"));
    }
    if count_given && grip_given {
        return Err(String::from_str("折るひだの枚数と3D上のつかみ位置を同時には指定できません"));
    }
    proof {
        assert(texts(notices@) =~= insert_notices(up_to as nat, doc@.sequence.len()));
    }
    Ok(notices)
}

/// Refuses to reproduce a folded shape and fold from a grip point in 3D at once.
pub fn check_pose_and_grip(pose_given: bool, grip_given: bool) -> (r: Result<(), String>)
    ensures
        r is Err <==> pose_given && grip_given,
        r matches Err(e) ==> e@ == msg_pose_and_grip(),
{
    if pose_given && grip_given {
        return Err(String::from_str("折った形の再現と3D上のつかみ位置を、同時には指定できません"));
    }
    Ok(())
}

/// The techniques that can be applied as one step.
pub open spec fn technique_available(kind: TechniqueKind) -> bool {
    match kind {
        TechniqueKind::Pleat | TechniqueKind::InsideReverse | TechniqueKind::OutsideReverse
        | TechniqueKind::Squash | TechniqueKind::Petal | TechniqueKind::OpenSink
        | TechniqueKind::Swivel | TechniqueKind::Twist => true,
        _ => false,
    }
}

/// Whether `kind` can be applied as one step.
pub fn technique_supported(kind: TechniqueKind) -> (r: bool)
    ensures
        r == technique_available(kind),
{
    match kind {
        TechniqueKind::Pleat | TechniqueKind::InsideReverse | TechniqueKind::OutsideReverse
        | TechniqueKind::Squash | TechniqueKind::Petal | TechniqueKind::OpenSink
        | TechniqueKind::Swivel | TechniqueKind::Twist => true,
        _ => false,
    }
}

/// What a technique request is answered before any geometry: the insertion point is
/// checked first, then whether the technique can be applied.
pub open spec fn technique_request_verdict(len: nat, up_to: nat, kind: TechniqueKind) -> Result<
    Seq<Seq<char>>,
    Seq<char>,
> {
    if up_to > len {
        Err(msg_insert_out_of_range(up_to))
    } else if !technique_available(kind) {
        Err(msg_technique_unavailable())
    } else {
        Ok(insert_notices(up_to, len))
    }
}

/// Checks a technique request before any geometry, and gives the notices of its
/// insertion point.
pub fn check_technique_request(doc: &Document, up_to: usize, kind: TechniqueKind) -> (r: Result<
    Vec<String>,
    String,
>)
    ensures
        request_view(r) == technique_request_verdict(doc@.sequence.len(), up_to as nat, kind),
{
    let notices = check_insert_point(doc, up_to)?;
    if !technique_supported(kind) {
        return Err(
            String::from_str("この折り方はまだ選べません。手動の折り操作で代替してください"),
        );
    }
    proof {
        assert(texts(notices@) =~= insert_notices(up_to as nat, doc@.sequence.len()));
    }
    Ok(notices)
}

} // verus!
