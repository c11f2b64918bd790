//! How many pleats a fold line can take at once, as told to the user before a fold.
//!
//! The geometric analysis of the pleats under a fold line is the kernel's; what it
//! found is handed here as plain values, and the verdict shown to the user, with its
//! reason, is decided here.
use vstd::prelude::*;
use vstd::string::*;

use crate::model::FaceId;
use crate::text::{decimal, message_with_number};

verus! {

/// The verdict on a fold line.
#[derive(Clone, Copy, Debug, PartialEq, Eq, Structural)]
pub enum FoldTargetStatus {
    /// No pleat count can be offered on this line.
    Unavailable,
    /// The count differs along the line.
    Varies,
    /// The top sheet is not folded down yet: only a crease goes on it.
    CreaseOnlyTop,
    /// Every count from one to the available count can be folded.
    Ready,
    /// As `Ready`, but below the last sheet the pleats are not folded down yet.
    Limited,
}

/// What is done to the top sheet instead of folding pleats.
#[derive(Clone, Copy, Debug, PartialEq, Eq, Structural)]
pub enum FoldTargetTopAction {
    CreaseOnlyTop,
}

/// The verdict on a fold line, as shown to the user.
#[derive(Debug, PartialEq)]
pub struct FoldTargetInfo {
    pub status: FoldTargetStatus,
    pub available_count: Option<usize>,
    pub reason: Option<String>,
    pub top_action: Option<FoldTargetTopAction>,
}

/// Mathematical value of a [`FoldTargetInfo`].
pub struct FoldTargetInfoModel {
    pub status: FoldTargetStatus,
    pub available_count: Option<usize>,
    pub reason: Option<Seq<char>>,
    pub top_action: Option<FoldTargetTopAction>,
}

impl View for FoldTargetInfo {
    type V = FoldTargetInfoModel;

    open spec fn view(&self) -> FoldTargetInfoModel {
        FoldTargetInfoModel {
            status: self.status,
            available_count: self.available_count,
            reason: match self.reason {
                Some(r) => Some(r@),
                None => None,
            },
            top_action: self.top_action,
        }
    }
}

impl Clone for FoldTargetInfo {
    fn clone(&self) -> (r: Self)
        ensures
            r@ == self@,
    {
        FoldTargetInfo {
            status: self.status,
            available_count: self.available_count,
            reason: match &self.reason {
                Some(m) => Some(m.clone()),
                None => None,
            },
            top_action: self.top_action,
        }
    }
}

/// A limit that the analysis found on the pleats of one section of the line.
#[derive(Clone, Copy, Debug, PartialEq, Eq, Structural)]
pub enum PleatCountLimit {
    /// Below the `count`-th pleat the layers are not folded down yet.
    IncompleteBoundaryAfter { count: usize },
    /// Any other limit.
    Other,
}

/// What the analysis proposes for the top sheet of a section.
#[derive(Clone, Copy, Debug, PartialEq, Eq, Structural)]
pub enum TopAction {
    /// Only crease the top sheet.
    CreaseOnlyTop,
    /// Any other action.
    Other,
}

/// What the analysis found in one section of the fold line.
#[derive(Clone, Copy, Debug, PartialEq, Eq, Structural)]
pub struct PleatSection {
    /// How many layer pairs, counted from the top, can fold together here.
    pub pairs: usize,
    pub count_limit: Option<PleatCountLimit>,
    pub top_action: Option<TopAction>,
}

/// What the analysis found along the whole fold line.
#[derive(Debug, PartialEq)]
pub struct PleatAnalysis {
    /// The pleat count shared by every section, if they share one.
    pub scalar_count: Option<usize>,
    pub sections: Vec<PleatSection>,
}

// ---------------------------------------------------------------------------
// Reasons
// ---------------------------------------------------------------------------
/// "The pleats that fold together on this line cannot be determined."
pub open spec fn msg_unavailable() -> Seq<char> {
    "この折り線で同時に折れるひだを確認できません。"@
}

/// "The number of pleats that fold together differs along the line."
pub open spec fn msg_varies() -> Seq<char> {
    "折り線の場所によって、同時に折れるひだの枚数が異なります。"@
}

/// The reason given when only the top sheet is creased.
pub open spec fn msg_crease_only_top() -> Seq<char> {
    "いちばん上の紙が最後まで折り重なっていないため、今回はひだをまとめて折りません。いちばん上の紙に折り目だけを付け、下の紙と3Dの形は動かしません。"@
}

/// "Up to {n} sheets from the top can be chosen; below the {n}-th the paper is not
/// folded down yet."
pub open spec fn msg_limited(n: nat) -> Seq<char> {
    "上から"@ + decimal(n) + "枚まで選べます。"@ + decimal(n)
        + "枚目の下は、まだ最後まで折り重なっていません。"@
}

/// "This many pleats cannot be folded."
pub open spec fn msg_count_not_foldable() -> Seq<char> {
    "この枚数のひだを折れません。"@
}

pub open spec fn unavailable_info() -> FoldTargetInfoModel {
    FoldTargetInfoModel {
        status: FoldTargetStatus::Unavailable,
        available_count: None,
        reason: Some(msg_unavailable()),
        top_action: None,
    }
}

pub open spec fn crease_only_info() -> FoldTargetInfoModel {
    FoldTargetInfoModel {
        status: FoldTargetStatus::CreaseOnlyTop,
        available_count: Some(0),
        reason: Some(msg_crease_only_top()),
        top_action: Some(FoldTargetTopAction::CreaseOnlyTop),
    }
}

// ---------------------------------------------------------------------------
// The verdict
// ---------------------------------------------------------------------------
/// Every section asks only for a crease on the top sheet.
pub open spec fn all_crease_only(sections: Seq<PleatSection>) -> bool {
    forall|i: int|
        0 <= i < sections.len() ==> {
            let s = #[trigger] sections[i];
            s.pairs == 0 && s.count_limit is None && s.top_action == Some(TopAction::CreaseOnlyTop)
        }
}

/// A section that folds `n` pleats, with the layers below them not folded down yet.
pub open spec fn section_limited(s: PleatSection, n: usize) -> bool {
    s.top_action is None && s.pairs == n && s.count_limit == Some(
        PleatCountLimit::IncompleteBoundaryAfter { count: n },
    )
}

/// A section that folds `n` pleats with nothing in the way.
pub open spec fn section_ready(s: PleatSection, n: usize) -> bool {
    s.top_action is None && s.count_limit is None && s.pairs == n
}

/// Every count from one to `n` has target faces (`safe[c - 1]` for count `c`).
pub open spec fn counts_safe(safe: Seq<bool>, n: nat) -> bool {
    n <= safe.len() && forall|k: int| 0 <= k < n ==> #[trigger] safe[k]
}

/// The verdict on a fold line, from the analysis and from whether each pleat count has
/// target faces.
pub open spec fn target_verdict(
    scalar_count: Option<usize>,
    sections: Seq<PleatSection>,
    safe: Seq<bool>,
) -> FoldTargetInfoModel {
    match scalar_count {
        None => FoldTargetInfoModel {
            status: FoldTargetStatus::Varies,
            available_count: None,
            reason: Some(msg_varies()),
            top_action: None,
        },
        Some(n) => if sections.len() == 0 {
            unavailable_info()
        } else if n == 0 && all_crease_only(sections) {
            crease_only_info()
        } else if n == 0 {
            unavailable_info()
        } else if !counts_safe(safe, n as nat) || !(forall|i: int|
            0 <= i < sections.len() ==> section_ready(#[trigger] sections[i], n)
                || section_limited(sections[i], n)) {
            unavailable_info()
        } else if exists|i: int| 0 <= i < sections.len() && section_limited(#[trigger] sections[i], n) {
            FoldTargetInfoModel {
                status: FoldTargetStatus::Limited,
                available_count: Some(n),
                reason: Some(msg_limited(n as nat)),
                top_action: None,
            }
        } else {
            FoldTargetInfoModel {
                status: FoldTargetStatus::Ready,
                available_count: Some(n),
                reason: None,
                top_action: None,
            }
        },
    }
}

/// The verdict given when the line cannot be analysed at all.
pub fn unavailable_fold_target_info() -> (r: FoldTargetInfo)
    ensures
        r@ == unavailable_info(),
{
    FoldTargetInfo {
        status: FoldTargetStatus::Unavailable,
        available_count: None,
        reason: Some(String::from_str("この折り線で同時に折れるひだを確認できません。")),
        top_action: None,
    }
}

/// The verdict given when only the top sheet is creased.
pub fn crease_only_fold_target_info() -> (r: FoldTargetInfo)
    ensures
        r@ == crease_only_info(),
{
    FoldTargetInfo {
        status: FoldTargetStatus::CreaseOnlyTop,
        available_count: Some(0),
        reason: Some(
            String::from_str(
                "いちばん上の紙が最後まで折り重なっていないため、今回はひだをまとめて折りません。いちばん上の紙に折り目だけを付け、下の紙と3Dの形は動かしません。",
            ),
        ),
        top_action: Some(FoldTargetTopAction::CreaseOnlyTop),
    }
}

fn sections_all_crease_only(sections: &Vec<PleatSection>) -> (r: bool)
    ensures
        r == all_crease_only(sections@),
{
    let mut i: usize = 0;
    while i < sections.len()
        invariant
            i <= sections.len(),
            forall|j: int|
                0 <= j < i ==> {
                    let s = #[trigger] sections@[j];
                    s.pairs == 0 && s.count_limit is None && s.top_action == Some(
                        TopAction::CreaseOnlyTop,
                    )
                },
        decreases sections.len() - i,
    {
        let s = sections[i];
        let ok = s.pairs == 0 && s.count_limit.is_none() && match s.top_action {
            Some(TopAction::CreaseOnlyTop) => true,
            _ => false,
        };
        if !ok {
            return false;
        }
        i += 1;
    }
    true
}

fn is_limited(s: PleatSection, n: usize) -> (r: bool)
    ensures
        r == section_limited(s, n),
{
    s.top_action.is_none() && s.pairs == n && match s.count_limit {
        Some(PleatCountLimit::IncompleteBoundaryAfter { count }) => count == n,
        _ => false,
    }
}

fn is_ready(s: PleatSection, n: usize) -> (r: bool)
    ensures
        r == section_ready(s, n),
{
    s.top_action.is_none() && s.count_limit.is_none() && s.pairs == n
}

fn all_counts_safe(safe: &Vec<bool>, n: usize) -> (r: bool)
    ensures
        r == counts_safe(safe@, n as nat),
{
    if n > safe.len() {
        return false;
    }
    let mut k: usize = 0;
    while k < n
        invariant
            k <= n,
            n <= safe@.len(),
            forall|j: int| 0 <= j < k ==> #[trigger] safe@[j],
        decreases n - k,
    {
        if !safe[k] {
            return false;
        }
        k += 1;
    }
    true
}

/// Decides what the user is told about a fold line, from the kernel's analysis of its
/// pleats and from whether each count `c` from one to the shared count has target faces
/// (`targets_safe[c - 1]`).
pub fn fold_target_info_from_analysis(analysis: &PleatAnalysis, targets_safe: &Vec<bool>) -> (r:
    FoldTargetInfo)
    ensures
        r@ == target_verdict(analysis.scalar_count, analysis.sections@, targets_safe@),
        (r.status == FoldTargetStatus::Ready || r.status == FoldTargetStatus::Limited) ==> (
        r.available_count matches Some(n) && n <= targets_safe@.len() && forall|c: int|
            1 <= c <= n ==> #[trigger] targets_safe@[c - 1]),
{
    proof {
        crate::laws::law_offered_counts_have_target_faces(
            analysis.scalar_count,
            analysis.sections@,
            targets_safe@,
        );
    }
    let sections = &analysis.sections;
    let n = match analysis.scalar_count {
        None => {
            return FoldTargetInfo {
                status: FoldTargetStatus::Varies,
                available_count: None,
                reason: Some(
                    String::from_str("折り線の場所によって、同時に折れるひだの枚数が異なります。"),
                ),
                top_action: None,
            };
        },
        Some(n) => n,
    };
    if sections.len() == 0 {
        return unavailable_fold_target_info();
    }
    if n == 0 && sections_all_crease_only(sections) {
        return crease_only_fold_target_info();
    }
    if n == 0 {
        return unavailable_fold_target_info();
    }
    let mut all_ready_or_limited = true;
    let mut any_limited = false;
    let mut i: usize = 0;
    while i < sections.len()
        invariant
            i <= sections.len(),
            all_ready_or_limited == (forall|j: int|
                0 <= j < i ==> section_ready(#[trigger] sections@[j], n) || section_limited(
                    sections@[j],
                    n,
                )),
            any_limited == (exists|j: int| 0 <= j < i && section_limited(#[trigger] sections@[j], n)),
        decreases sections.len() - i,
    {
        let s = sections[i];
        let limited = is_limited(s, n);
        let ready = is_ready(s, n);
        if !(ready || limited) {
            all_ready_or_limited = false;
        }
        if limited {
            any_limited = true;
        }
        proof {
            assert(sections@[i as int] == s);
        }
        i += 1;
    }
    let safe = all_counts_safe(targets_safe, n);
    if !safe || !all_ready_or_limited {
        return unavailable_fold_target_info();
    }
    if any_limited {
        let mut reason = message_with_number("上から", n as u64, "枚まで選べます。");
        let tail = message_with_number("", n as u64, "枚目の下は、まだ最後まで折り重なっていません。");
        reason.append(tail.as_str());
        proof {
            reveal_strlit("");
            assert(reason@ =~= msg_limited(n as nat));
        }
        FoldTargetInfo {
            status: FoldTargetStatus::Limited,
            available_count: Some(n),
            reason: Some(reason),
            top_action: None,
        }
    } else {
        FoldTargetInfo {
            status: FoldTargetStatus::Ready,
            available_count: Some(n),
            reason: None,
            top_action: None,
        }
    }
}

/// What a request for the target faces of a pleat count answers: the faces, or the
/// verdict's reason (or a general one) when the verdict offers no count or the kernel
/// found no faces for it.
pub open spec fn target_faces_verdict(info: FoldTargetInfoModel, faces: Option<Seq<FaceId>>) -> Result<
    Seq<FaceId>,
    Seq<char>,
> {
    let reason = match info.reason {
        Some(m) => m,
        None => msg_count_not_foldable(),
    };
    if !(info.status == FoldTargetStatus::Ready || info.status == FoldTargetStatus::Limited) {
        Err(reason)
    } else {
        match faces {
            Some(f) => Ok(f),
            None => Err(reason),
        }
    }
}

/// Answers a request for the faces of a pleat count, given the verdict on the line and
/// the faces that the kernel found for that count (`None` where it found none).
pub fn fold_target_faces(info: &FoldTargetInfo, faces: Option<Vec<FaceId>>) -> (r: Result<
    Vec<FaceId>,
    String,
>)
    ensures
        target_faces_verdict(
            info@,
            match faces {
                Some(f) => Some(f@),
                None => None,
            },
        ) == match r {
            Ok(f) => Ok(f@),
            Err(m) => Err::<Seq<FaceId>, Seq<char>>(m@),
        },
{
    let reason = match &info.reason {
        Some(m) => m.clone(),
        None => String::from_str("この枚数のひだを折れません。"),
    };
    match info.status {
        FoldTargetStatus::Ready | FoldTargetStatus::Limited => {},
        _ => {
            return Err(reason);
        },
    }
    match faces {
        Some(f) => Ok(f),
        None => Err(reason),
    }
}

// ---------------------------------------------------------------------------
// Creasing the top sheet only
// ---------------------------------------------------------------------------
/// Why a crease could not be put on the top sheet.
#[derive(Clone, Copy, Debug, PartialEq, Eq, Structural)]
pub enum SpatialCreaseOnlyError {
    DegenerateMaterialLine,
    NonFiniteInput,
    MaterialKeepSidePointOnBoundary,
    MaterialKeepSidePointOutsidePaper,
    MaterialLineMismatchAcrossSurfaceFaces,
    PartialInsertion,
    AmbiguousTopSurface,
    MissingTopRelation,
    ZeroTopRelation,
    CompleteTopRelation,
    InvalidTopRelation,
    NotImplemented,
}

/// The message shown for each reason a top-sheet crease failed.
pub open spec fn crease_only_error_text(e: SpatialCreaseOnlyError) -> Seq<char> {
    match e {
        SpatialCreaseOnlyError::DegenerateMaterialLine => "折り線の2点が同じため、折り目を付けられません。"@,
        SpatialCreaseOnlyError::NonFiniteInput => "折り線の位置を読み取れないため、折り目を付けられません。"@,
        SpatialCreaseOnlyError::MaterialKeepSidePointOnBoundary => "残す側の点が紙のふちにあるため、どちら側か決められません。"@,
        SpatialCreaseOnlyError::MaterialKeepSidePointOutsidePaper => "残す側の点が紙の外にあるため、折り目を付けられません。"@,
        SpatialCreaseOnlyError::MaterialLineMismatchAcrossSurfaceFaces => "折り線がいちばん上の紙で1本につながらないため、折り目を付けられません。"@,
        SpatialCreaseOnlyError::PartialInsertion => "いちばん上の紙の全体へ折り目を付けられないため、変更しませんでした。"@,
        _ => "いちばん上の紙が折り途中だと確認できないため、折り目を付けられません。"@,
    }
}

/// The message for a failed top-sheet crease.
pub fn material_crease_only_error_message(error: SpatialCreaseOnlyError) -> (s: String)
    ensures
        s@ == crease_only_error_text(error),
{
    match error {
        SpatialCreaseOnlyError::DegenerateMaterialLine => String::from_str(
            "折り線の2点が同じため、折り目を付けられません。",
        ),
        SpatialCreaseOnlyError::NonFiniteInput => String::from_str(
            "折り線の位置を読み取れないため、折り目を付けられません。",
        ),
        SpatialCreaseOnlyError::MaterialKeepSidePointOnBoundary => String::from_str(
            "残す側の点が紙のふちにあるため、どちら側か決められません。",
        ),
        SpatialCreaseOnlyError::MaterialKeepSidePointOutsidePaper => String::from_str(
            "残す側の点が紙の外にあるため、折り目を付けられません。",
        ),
        SpatialCreaseOnlyError::MaterialLineMismatchAcrossSurfaceFaces => String::from_str(
            "折り線がいちばん上の紙で1本につながらないため、折り目を付けられません。",
        ),
        SpatialCreaseOnlyError::PartialInsertion => String::from_str(
            "いちばん上の紙の全体へ折り目を付けられないため、変更しませんでした。",
        ),
        SpatialCreaseOnlyError::AmbiguousTopSurface
        | SpatialCreaseOnlyError::MissingTopRelation
        | SpatialCreaseOnlyError::ZeroTopRelation
        | SpatialCreaseOnlyError::CompleteTopRelation
        | SpatialCreaseOnlyError::InvalidTopRelation
        | SpatialCreaseOnlyError::NotImplemented => String::from_str(
            "いちばん上の紙が折り途中だと確認できないため、折り目を付けられません。",
        ),
    }
}

/// The verdict on a line drawn on the material of a partly folded top sheet: a crease
/// can go on the top sheet exactly where the kernel managed to place it.
pub fn material_fold_target_info(crease_placed: bool) -> (r: FoldTargetInfo)
    ensures
        r@ == (if crease_placed { crease_only_info() } else { unavailable_info() }),
{
    if crease_placed {
        crease_only_fold_target_info()
    } else {
        unavailable_fold_target_info()
    }
}

} // verus!
