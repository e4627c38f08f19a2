//! The fixed resource-binding layouts shared by every pipeline: group 0 is
//! the input image with its sampler, group 1 the time block, group 2 the
//! parameter block, and group 3 either the atomic counters or the
//! resolution block.
use vstd::prelude::*;

verus! {

/// One binding of a group, in binding-number order.
#[derive(Clone, Copy, Debug, PartialEq, Eq, Structural)]
pub enum BindingEntry {
    /// A filterable 2D float texture.
    Texture,
    /// A filtering sampler.
    Sampler,
    /// A uniform buffer.
    UniformBuffer,
    /// A read-write storage buffer.
    StorageBuffer,
}

/// What a bind group holds.
#[derive(Clone, Copy, Debug, PartialEq, Eq, Structural)]
pub enum GroupKind {
    ImageSampler,
    Time,
    Params,
    Resolution,
    Atomic,
}

/// The bindings of a group of kind `k`.
pub open spec fn entries_spec(k: GroupKind) -> Seq<BindingEntry> {
    match k {
        GroupKind::ImageSampler => seq![BindingEntry::Texture, BindingEntry::Sampler],
        GroupKind::Atomic => seq![BindingEntry::StorageBuffer],
        _ => seq![BindingEntry::UniformBuffer],
    }
}

/// The groups of a pass pipeline, in group-number order.
pub open spec fn pass_groups_spec(with_atomic: bool) -> Seq<GroupKind> {
    seq![
        GroupKind::ImageSampler,
        GroupKind::Time,
        GroupKind::Params,
        if with_atomic { GroupKind::Atomic } else { GroupKind::Resolution },
    ]
}

/// The bindings of a group of kind `k`.
pub fn group_entries(k: GroupKind) -> (r: Vec<BindingEntry>)
    ensures
        r@ == entries_spec(k),
{
    let mut r: Vec<BindingEntry> = Vec::new();
    match k {
        GroupKind::ImageSampler => {
            r.push(BindingEntry::Texture);
            r.push(BindingEntry::Sampler);
        },
        GroupKind::Atomic => {
            r.push(BindingEntry::StorageBuffer);
        },
        _ => {
            r.push(BindingEntry::UniformBuffer);
        },
    }
    proof {
        assert(r@ =~= entries_spec(k));
    }
    r
}

/// The groups of a pass pipeline: the fourth holds the atomic counters for
/// pipelines that accumulate, the resolution block for the others.
pub fn pass_groups(with_atomic: bool) -> (r: Vec<GroupKind>)
    ensures
        r@ == pass_groups_spec(with_atomic),
{
    let mut r: Vec<GroupKind> = Vec::new();
    r.push(GroupKind::ImageSampler);
    r.push(GroupKind::Time);
    r.push(GroupKind::Params);
    if with_atomic {
        r.push(GroupKind::Atomic);
    } else {
        r.push(GroupKind::Resolution);
    }
    proof {
        assert(r@ =~= pass_groups_spec(with_atomic));
    }
    r
}

} // verus!
