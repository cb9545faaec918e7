//! Deletion targets and inventories.

use vstd::prelude::*;

verus! {

/// What a deletion target is: a key and, for a version-qualified target, the
/// identifier of one version or delete marker of that key.
pub struct TargetView {
    pub key: Seq<char>,
    pub version_id: Option<Seq<char>>,
}

/// One unit of deletion.
#[derive(Debug)]
pub struct DeletionTarget {
    pub key: String,
    pub version_id: Option<String>,
}

/// The characters of an optional string.
pub open spec fn text_of(s: Option<String>) -> Option<Seq<char>> {
    match s {
        Some(t) => Some(t@),
        None => None,
    }
}

impl View for DeletionTarget {
    type V = TargetView;

    open spec fn view(&self) -> TargetView {
        TargetView { key: self.key@, version_id: text_of(self.version_id) }
    }
}

/// The targets that a sequence of deletion targets stands for, in order.
pub open spec fn inventory_view(targets: Seq<DeletionTarget>) -> Seq<TargetView> {
    targets.map_values(|t: DeletionTarget| t@)
}

/// The characters of each string of a sequence, in order.
pub open spec fn texts_of(strings: Seq<String>) -> Seq<Seq<char>> {
    strings.map_values(|s: String| s@)
}

/// A copy of an optional string.
pub fn copy_text(s: &Option<String>) -> (r: Option<String>)
    ensures
        text_of(r) == text_of(*s),
{
    match s {
        Some(t) => Some(t.clone()),
        None => None,
    }
}

impl DeletionTarget {
    /// A target without a version: the key as the plain listing reports it.
    pub fn plain(key: String) -> (t: DeletionTarget)
        ensures
            t@ == (TargetView { key: key@, version_id: None }),
    {
        DeletionTarget { key, version_id: None }
    }

    /// A version-qualified target: one version or delete marker of a key.
    pub fn versioned(key: String, version_id: String) -> (t: DeletionTarget)
        ensures
            t@ == (TargetView { key: key@, version_id: Some(version_id@) }),
    {
        DeletionTarget { key, version_id: Some(version_id) }
    }

    /// Whether the target names a version.
    pub fn is_versioned(&self) -> (b: bool)
        ensures
            b == self@.version_id.is_some(),
    {
        self.version_id.is_some()
    }

    /// A copy of the target.
    pub fn duplicate(&self) -> (t: DeletionTarget)
        ensures
            t@ == self@,
    {
        DeletionTarget { key: self.key.clone(), version_id: copy_text(&self.version_id) }
    }
}

} // verus!
