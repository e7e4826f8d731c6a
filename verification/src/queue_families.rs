//! Queue-family discovery on a physical device.
//!
//! The device reports its queue families in index order; the surface answers,
//! per family, whether presentation is supported (a query that may itself
//! fail). The scan walks the list once, left to right, records the first
//! family supporting graphics and, independently, the first family supporting
//! presentation, and stops as soon as both roles are resolved.

use vstd::prelude::*;

use crate::errors::AppError;

verus! {

/// The outcome of asking whether one queue family can present to the surface.
#[derive(Debug, Clone, PartialEq, Eq)]
pub enum PresentSupport {
    /// The query succeeded and the family can present.
    Supported,
    /// The query succeeded and the family cannot present.
    Unsupported,
    /// The query itself failed; carries the driver's message.
    QueryFailed(String),
}

/// What the scan reads of one queue family: its graphics capability and the
/// outcome of the per-family presentation query.
#[derive(Debug, Clone, PartialEq, Eq)]
pub struct QueueFamilyInfo {
    pub supports_graphics: bool,
    pub present_support: PresentSupport,
}

/// A complete mapping from the two required queue roles to family indices.
/// The two indices may coincide.
#[derive(Debug, Clone, Copy, PartialEq, Eq, Structural)]
pub struct QueueFamilyIndices {
    pub graphics_family: u32,
    pub present_family: u32,
}

/// Incremental accumulator for queue-family discovery: each role is an
/// optional field, set at most once, and a record is produced only when
/// every field is populated.
#[derive(Debug, Clone, Copy)]
pub struct QueueFamilyIndicesBuilder {
    pub graphics_family: Option<u32>,
    pub present_family: Option<u32>,
}

impl Default for QueueFamilyIndicesBuilder {
    /// Starts with no role resolved.
    fn default() -> (r: Self)
        ensures
            r.graphics_family is None,
            r.present_family is None,
    {
        QueueFamilyIndicesBuilder { graphics_family: None, present_family: None }
    }
}

impl QueueFamilyIndicesBuilder {
    /// Starts with no role resolved.
    pub fn new() -> (r: Self)
        ensures
            r.graphics_family is None,
            r.present_family is None,
    {
        QueueFamilyIndicesBuilder { graphics_family: None, present_family: None }
    }

    /// Records a graphics-capable family, keeping the first one seen.
    pub fn observe_graphics(&mut self, index: u32)
        ensures
            final(self).graphics_family == (if old(self).graphics_family is None {
                Some(index)
            } else {
                old(self).graphics_family
            }),
            final(self).present_family == old(self).present_family,
    {
        if self.graphics_family.is_none() {
            self.graphics_family = Some(index);
        }
    }

    /// Records a presentation-capable family, keeping the first one seen.
    pub fn observe_present(&mut self, index: u32)
        ensures
            final(self).present_family == (if old(self).present_family is None {
                Some(index)
            } else {
                old(self).present_family
            }),
            final(self).graphics_family == old(self).graphics_family,
    {
        if self.present_family.is_none() {
            self.present_family = Some(index);
        }
    }

    /// Finalizes the record: a completed value comes out exactly when every
    /// role has a resolved index.
    pub fn build(&self) -> (r: Option<QueueFamilyIndices>)
        ensures
            r == (match (self.graphics_family, self.present_family) {
                (Some(g), Some(p)) => Some(QueueFamilyIndices { graphics_family: g, present_family: p }),
                _ => None::<QueueFamilyIndices>,
            }),
    {
        match (self.graphics_family, self.present_family) {
            (Some(g), Some(p)) => Some(QueueFamilyIndices { graphics_family: g, present_family: p }),
            _ => None,
        }
    }
}

/// The family at index `i` supports graphics.
pub open spec fn graphics_at(fams: Seq<QueueFamilyInfo>, i: int) -> bool {
    fams[i].supports_graphics
}

/// The family at index `i` answered the presentation query positively.
pub open spec fn present_at(fams: Seq<QueueFamilyInfo>, i: int) -> bool {
    fams[i].present_support is Supported
}

/// Some family supports graphics.
pub open spec fn has_graphics(fams: Seq<QueueFamilyInfo>) -> bool {
    exists|i: int| 0 <= i < fams.len() && graphics_at(fams, i)
}

/// Some family presents to the surface.
pub open spec fn has_present(fams: Seq<QueueFamilyInfo>) -> bool {
    exists|i: int| 0 <= i < fams.len() && present_at(fams, i)
}

/// Both required roles can be resolved on this family list.
pub open spec fn scan_complete(fams: Seq<QueueFamilyInfo>) -> bool {
    has_graphics(fams) && has_present(fams)
}

/// `i` is the first graphics-capable index.
pub open spec fn is_first_graphics(fams: Seq<QueueFamilyInfo>, i: int) -> bool {
    &&& 0 <= i < fams.len()
    &&& graphics_at(fams, i)
    &&& forall|j: int| 0 <= j < i ==> !graphics_at(fams, j)
}

/// `i` is the first presentation-capable index.
pub open spec fn is_first_present(fams: Seq<QueueFamilyInfo>, i: int) -> bool {
    &&& 0 <= i < fams.len()
    &&& present_at(fams, i)
    &&& forall|j: int| 0 <= j < i ==> !present_at(fams, j)
}

/// The presentation query is made at index `i` exactly while no earlier
/// family has answered it positively (the scan stops asking once the
/// present role is resolved).
pub open spec fn present_queried_at(fams: Seq<QueueFamilyInfo>, i: int) -> bool {
    &&& 0 <= i < fams.len()
    &&& forall|j: int| 0 <= j < i ==> !present_at(fams, j)
}

/// A presentation query that was actually made failed at index `i`.
pub open spec fn scan_error_at(fams: Seq<QueueFamilyInfo>, i: int) -> bool {
    present_queried_at(fams, i) && fams[i].present_support is QueryFailed
}

/// Some presentation query that was actually made failed.
pub open spec fn scan_has_error(fams: Seq<QueueFamilyInfo>) -> bool {
    exists|i: int| scan_error_at(fams, i)
}

/// `i` is the last index at which a made presentation query failed; its
/// message is the one the scan reports.
pub open spec fn is_last_scan_error(fams: Seq<QueueFamilyInfo>, i: int) -> bool {
    &&& scan_error_at(fams, i)
    &&& forall|j: int| i < j < fams.len() ==> !scan_error_at(fams, j)
}

/// The failed query at index `i` carries the message `m`.
pub open spec fn error_message_at(fams: Seq<QueueFamilyInfo>, i: int, m: Seq<char>) -> bool {
    fams[i].present_support matches PresentSupport::QueryFailed(w) && w@ == m
}

impl QueueFamilyIndices {

    /// Scans the queue families of one physical device, left to right.
    ///
    /// The first family supporting graphics and the first family supporting
    /// presentation are tracked independently; the scan returns the completed
    /// record as soon as both are set, without reading the remaining families.
    /// A presentation query that fails is treated as a non-match and the scan
    /// continues; only when the scan ends without resolving both roles is the
    /// last such failure reported as an error, and an error-free exhausted scan
    /// reports that no complete record exists.
    pub fn find(fams: &Vec<QueueFamilyInfo>) -> (r: Result<
        Option<QueueFamilyIndices>,
        AppError,
    >)
        requires
            fams@.len() <= u32::MAX,
        ensures
            scan_complete(fams@) <==> (r matches Ok(q) && q is Some),
            r matches Ok(q) ==> (q matches Some(ix) ==> is_first_graphics(fams@, ix.graphics_family as int)
                && is_first_present(fams@, ix.present_family as int)),
            !scan_complete(fams@) ==> ((r matches Err(e)) <==> scan_has_error(fams@)),
            r matches Err(e) ==> (e matches AppError::Vulkan(m) && (exists|i: int|
                #[trigger] is_last_scan_error(fams@, i) && error_message_at(fams@, i, m@))),
    {
        let ghost s = fams@;
        let mut builder = QueueFamilyIndicesBuilder::new();
        let mut last_err: Option<String> = None;
        let n = fams.len();
        let mut k: usize = 0;
        while k < n
            invariant
                n == s.len(),
                s.len() <= u32::MAX,
                s == fams@,
                0 <= k <= n,
                !(builder.graphics_family is Some && builder.present_family is Some),
                builder.graphics_family matches Some(g) ==> is_first_graphics(s, g as int) && g < k,
                builder.present_family matches Some(p) ==> is_first_present(s, p as int) && p < k,
                builder.graphics_family is None ==> forall|j: int| 0 <= j < k ==> !graphics_at(s, j),
                builder.present_family is None ==> forall|j: int| 0 <= j < k ==> !present_at(s, j),
                last_err matches Some(m) ==> exists|i: int|
                    0 <= i < k && #[trigger] scan_error_at(s, i) && (forall|j: int|
                        i < j < k ==> !scan_error_at(s, j)) && error_message_at(s, i, m@),
                last_err is None ==> forall|j: int| 0 <= j < k ==> !scan_error_at(s, j),
            decreases n - k,
        {
            let i = k as u32;
            if builder.graphics_family.is_none() && fams[k].supports_graphics {
                builder.observe_graphics(i);
            }
            if builder.present_family.is_none() {
                match &fams[k].present_support {
                    PresentSupport::Supported => {
                        builder.observe_present(i);
                    },
                    PresentSupport::Unsupported => {},
                    PresentSupport::QueryFailed(m) => {
                        last_err = Some(m.clone());
                        assert(scan_error_at(s, k as int));
                    },
                }
            } else {
                assert(!present_queried_at(s, k as int));
            }
            k = k + 1;
            if let Some(indices) = builder.build() {
                proof {
                    let g = indices.graphics_family as int;
                    let p = indices.present_family as int;
                    assert(graphics_at(s, g));
                    assert(present_at(s, p));
                    assert(is_first_graphics(s, g));
                    assert(is_first_present(s, p));
                }
                return Ok(Some(indices));
            }
        }
        assert(!scan_complete(s)) by {
            if has_graphics(s) && has_present(s) {
                let gi = choose|i: int| 0 <= i < s.len() && graphics_at(s, i);
                let pi = choose|i: int| 0 <= i < s.len() && present_at(s, i);
                assert(builder.graphics_family is None ==> !graphics_at(s, gi));
                assert(builder.present_family is None ==> !present_at(s, pi));
            }
        }
        match last_err {
            Some(m) => {
                proof {
                    let i = choose|i: int|
                        0 <= i < k && #[trigger] scan_error_at(s, i) && (forall|j: int|
                            i < j < k ==> !scan_error_at(s, j)) && error_message_at(s, i, m@);
                    assert(is_last_scan_error(s, i));
                }
                Err(AppError::Vulkan(m))
            },
            None => Ok(None),
        }
    }

}

} // verus!
