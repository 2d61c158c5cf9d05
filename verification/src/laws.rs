use vstd::prelude::*;

use crate::monitor::{handle_matches, FieldReadings, SafeMonitor};

verus! {

/// For every successfully constructed handle, the dimensions it reports are
/// exactly the width and height answered by the field readings it was built
/// from. A handle has no mutating operation and its snapshot is shared
/// read-only, so this holds for the handle's whole lifetime.
pub proof fn lemma_dimensions_recorded(m: SafeMonitor, r: FieldReadings)
    requires
        handle_matches(m, r),
    ensures
        m.spec_data().width == r.width->Ok_0,
        m.spec_data().height == r.height->Ok_0,
        m.spec_id() == r.id->Ok_0,
{
}

/// Two handles that agree on identity and snapshot — as a clone agrees with
/// its original — observe identical values through every accessor.
pub proof fn lemma_clones_agree(a: SafeMonitor, b: SafeMonitor)
    requires
        a.spec_id() == b.spec_id(),
        a.spec_data() == b.spec_data(),
    ensures
        a.spec_data().width == b.spec_data().width,
        a.spec_data().height == b.spec_data().height,
        a.spec_data().name == b.spec_data().name,
        a.spec_data().is_primary == b.spec_data().is_primary,
{
}

/// Listing all monitors is determined by the field readings alone: two
/// enumerations that answered identical readings — as two calls in immediate
/// succession with no display-set change do — yield handle lists of equal
/// length whose identities and snapshot contents agree pointwise, even
/// though the handles are distinct objects.
pub proof fn lemma_list_consistent(
    rs1: Seq<FieldReadings>,
    rs2: Seq<FieldReadings>,
    hs1: Seq<SafeMonitor>,
    hs2: Seq<SafeMonitor>,
)
    requires
        rs1 == rs2,
        hs1.len() == rs1.len(),
        forall|i: int| 0 <= i < hs1.len() ==> handle_matches(#[trigger] hs1[i], rs1[i]),
        hs2.len() == rs2.len(),
        forall|i: int| 0 <= i < hs2.len() ==> handle_matches(#[trigger] hs2[i], rs2[i]),
    ensures
        hs1.len() == hs2.len(),
        forall|i: int|
            0 <= i < hs1.len() ==> (#[trigger] hs1[i]).spec_id() == hs2[i].spec_id(),
        forall|i: int|
            0 <= i < hs1.len() ==> (#[trigger] hs1[i]).spec_data().width
                == hs2[i].spec_data().width && hs1[i].spec_data().height
                == hs2[i].spec_data().height && hs1[i].spec_data().name
                == hs2[i].spec_data().name && hs1[i].spec_data().is_primary
                == hs2[i].spec_data().is_primary,
{
    assert forall|i: int| 0 <= i < hs1.len() implies (#[trigger] hs1[i]).spec_id()
        == hs2[i].spec_id() by {
        assert(handle_matches(hs1[i], rs1[i]));
        assert(handle_matches(hs2[i], rs2[i]));
    }
    assert forall|i: int|
        0 <= i < hs1.len() implies (#[trigger] hs1[i]).spec_data().width
        == hs2[i].spec_data().width && hs1[i].spec_data().height == hs2[i].spec_data().height
        && hs1[i].spec_data().name == hs2[i].spec_data().name && hs1[i].spec_data().is_primary
        == hs2[i].spec_data().is_primary by {
        assert(handle_matches(hs1[i], rs1[i]));
        assert(handle_matches(hs2[i], rs2[i]));
    }
}

} // verus!
