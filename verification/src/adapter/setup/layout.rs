//! How a session's section is laid out.

use vstd::prelude::*;

verus! {

/// A range of the section, in bytes.
#[derive(Clone, Copy, Debug, PartialEq, Eq, Structural)]
pub struct RegionDesc {
    /// Where the range begins.
    pub offset: u64,
    /// How long it is.
    pub length: u64,
}

/// One ring's ranges.
#[derive(Clone, Copy, Debug, PartialEq, Eq, Structural)]
pub struct RingLayout {
    /// The submission queue's producer page.
    pub sq_producer: RegionDesc,
    /// The submission queue's consumer page.
    pub sq_consumer: RegionDesc,
    /// The submission queue's entries.
    pub sq_entries: RegionDesc,
    /// The completion queue's producer page.
    pub cq_producer: RegionDesc,
    /// The completion queue's consumer page.
    pub cq_consumer: RegionDesc,
    /// The completion queue's entries.
    pub cq_entries: RegionDesc,
}

/// The whole layout of a section. Two layouts are one exactly when every range of
/// theirs is.
#[derive(Clone, Debug, PartialEq, Eq)]
pub struct SectionLayoutPlan {
    /// The size of the section.
    pub section_size: u64,
    /// The directory of the rings.
    pub ring_directory: RegionDesc,
    /// The slots that the driver fills.
    pub k2u_slots: RegionDesc,
    /// The slots that the provider fills.
    pub u2k_slots: RegionDesc,
    /// The rings, by their index.
    pub rings: Vec<RingLayout>,
}

/// A [`SectionLayoutPlan`] as values.
pub struct LayoutModel {
    pub section_size: u64,
    pub ring_directory: RegionDesc,
    pub k2u_slots: RegionDesc,
    pub u2k_slots: RegionDesc,
    pub rings: Seq<RingLayout>,
}

impl View for SectionLayoutPlan {
    type V = LayoutModel;

    open spec fn view(&self) -> LayoutModel {
        LayoutModel {
            section_size: self.section_size,
            ring_directory: self.ring_directory,
            k2u_slots: self.k2u_slots,
            u2k_slots: self.u2k_slots,
            rings: self.rings@,
        }
    }
}

impl SectionLayoutPlan {
    /// The size of the section.
    pub fn section_size(&self) -> (size: u64)
        ensures
            size == self@.section_size,
    {
        self.section_size
    }

    /// The directory of the rings.
    pub fn ring_directory(&self) -> (directory: RegionDesc)
        ensures
            directory == self@.ring_directory,
    {
        self.ring_directory
    }

    /// The slots that the provider fills.
    pub fn u2k_slots(&self) -> (slots: RegionDesc)
        ensures
            slots == self@.u2k_slots,
    {
        self.u2k_slots
    }

    /// The ranges of the ring at `index`; none outside the topology.
    pub fn ring(&self, index: u32) -> (ring: Option<RingLayout>)
        ensures
            ring == (if index < self@.rings.len() {
                Some(self@.rings[index as int])
            } else {
                None
            }),
    {
        if (index as usize) < self.rings.len() {
            Some(self.rings[index as usize])
        } else {
            None
        }
    }

    /// Is this the layout `other`?
    pub fn agrees_with(&self, other: &SectionLayoutPlan) -> (agrees: bool)
        ensures
            agrees <==> self@ == other@,
    {
        if self.section_size != other.section_size || self.ring_directory != other.ring_directory
            || self.k2u_slots != other.k2u_slots || self.u2k_slots != other.u2k_slots
            || self.rings.len() != other.rings.len() {
            return false;
        }
        let mut next: usize = 0;
        while next < self.rings.len()
            invariant
                next <= self.rings.len(),
                self.rings.len() == other.rings.len(),
                forall|i: int| 0 <= i < next ==> self.rings@[i] == other.rings@[i],
            decreases self.rings.len() - next,
        {
            if self.rings[next] != other.rings[next] {
                return false;
            }
            next += 1;
        }
        assert(self.rings@ =~= other.rings@);
        true
    }
}

/// Two layouts agree exactly if every range of one is the other's, ring by ring.
pub proof fn law_layouts_agree_range_by_range(
    one: SectionLayoutPlan,
    other: SectionLayoutPlan,
    agrees: bool,
)
    requires
        call_ensures(SectionLayoutPlan::agrees_with, (&one, &other), agrees),
    ensures
        agrees <==> {
            &&& one.section_size == other.section_size
            &&& one.ring_directory == other.ring_directory
            &&& one.k2u_slots == other.k2u_slots
            &&& one.u2k_slots == other.u2k_slots
            &&& one.rings@.len() == other.rings@.len()
            &&& forall|i: int| 0 <= i < one.rings@.len() ==> one.rings@[i] == other.rings@[i]
        },
{
    if one.rings@.len() == other.rings@.len() && (forall|i: int|
        0 <= i < one.rings@.len() ==> one.rings@[i] == other.rings@[i]) {
        assert(one.rings@ =~= other.rings@);
    }
}

/// A ring's ranges are those at its index, and there are none past the last.
pub proof fn law_ring_has_its_own_ranges(
    layout: SectionLayoutPlan,
    index: u32,
    ring: Option<RingLayout>,
)
    requires
        call_ensures(SectionLayoutPlan::ring, (&layout, index), ring),
    ensures
        ring is Some <==> index < layout.rings@.len(),
        ring matches Some(ranges) ==> ranges == layout.rings@[index as int],
{
}

} // verus!
