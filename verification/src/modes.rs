//! The HVAC operating mode and the status-aggregation rule.

use vstd::prelude::*;

verus! {

/// The operating mode of a thermostat. `Heat`, `Cool` and `Off` can be set on
/// a device; `Inconsistent` is observed-only, reported when the queried
/// thermostats do not agree on a mode, and is never a target to set.
#[derive(Clone, Copy, Debug, PartialEq, Eq, Structural)]
pub enum OperatingMode {
    Heat,
    Cool,
    Off,
    Inconsistent,
}

/// The mode that a vendor-reported mode name stands for: `heat`, `cool` and
/// `off` name their modes; any other report (an unknown or blended mode)
/// counts as `Inconsistent`, which the control loop never targets.
pub open spec fn mode_of_name(s: Seq<char>) -> OperatingMode {
    if s == "heat"@ {
        OperatingMode::Heat
    } else if s == "cool"@ {
        OperatingMode::Cool
    } else if s == "off"@ {
        OperatingMode::Off
    } else {
        OperatingMode::Inconsistent
    }
}

/// The name under which a mode is sent to, or reported by, a device.
pub open spec fn name_of_mode(m: OperatingMode) -> Seq<char> {
    match m {
        OperatingMode::Heat => "heat"@,
        OperatingMode::Cool => "cool"@,
        OperatingMode::Off => "off"@,
        OperatingMode::Inconsistent => "inconsistent"@,
    }
}

/// The aggregate of the modes reported by a set of devices: if all reports
/// are identical that mode is the aggregate, so a single report is trivially
/// consistent; if any two reports differ the aggregate is `Inconsistent`.
/// An empty report list also aggregates to `Inconsistent`: nothing vouches
/// for a mode. Stated over the multiset of positions, the rule is
/// order-independent.
pub open spec fn spec_aggregate(modes: Seq<OperatingMode>) -> OperatingMode {
    if modes.len() > 0 && forall|i: int| 0 <= i < modes.len() ==> #[trigger] modes[i] == modes[0] {
        modes[0]
    } else {
        OperatingMode::Inconsistent
    }
}

impl OperatingMode {
    /// The mode a vendor-reported mode name stands for.
    pub fn from_name(s: &str) -> (m: OperatingMode)
        ensures
            m == mode_of_name(s@),
    {
        if str_eq(s, "heat") {
            OperatingMode::Heat
        } else if str_eq(s, "cool") {
            OperatingMode::Cool
        } else if str_eq(s, "off") {
            OperatingMode::Off
        } else {
            OperatingMode::Inconsistent
        }
    }

    /// The name under which this mode is sent to the vendor API.
    pub fn name(&self) -> (s: String)
        ensures
            s@ == name_of_mode(*self),
    {
        match self {
            OperatingMode::Heat => String::from_str("heat"),
            OperatingMode::Cool => String::from_str("cool"),
            OperatingMode::Off => String::from_str("off"),
            OperatingMode::Inconsistent => String::from_str("inconsistent"),
        }
    }
}

/// Every mode name reads back as the mode it was written for. `Inconsistent`
/// is included: its name is not a device mode name, so it reads back as
/// `Inconsistent` again.
pub proof fn lemma_mode_name_round_trip(m: OperatingMode)
    ensures
        mode_of_name(name_of_mode(m)) == m,
{
    reveal_strlit("heat");
    reveal_strlit("cool");
    reveal_strlit("off");
    reveal_strlit("inconsistent");
    assert("heat"@ != "cool"@) by {
        assert("heat"@[0] != "cool"@[0]);
    }
    assert("heat"@ != "off"@) by {
        assert("heat"@.len() != "off"@.len());
    }
    assert("cool"@ != "off"@) by {
        assert("cool"@.len() != "off"@.len());
    }
    assert("inconsistent"@ != "heat"@) by {
        assert("inconsistent"@.len() != "heat"@.len());
    }
    assert("inconsistent"@ != "cool"@) by {
        assert("inconsistent"@.len() != "cool"@.len());
    }
    assert("inconsistent"@ != "off"@) by {
        assert("inconsistent"@.len() != "off"@.len());
    }
}

/// The aggregation rule is order-independent: two report lists that hold the
/// same modes the same number of times aggregate to the same mode, wherever
/// in the list each report stands.
pub proof fn lemma_aggregate_order_independent(s1: Seq<OperatingMode>, s2: Seq<OperatingMode>)
    requires
        s1.to_multiset() == s2.to_multiset(),
    ensures
        spec_aggregate(s1) == spec_aggregate(s2),
{
    s1.to_multiset_ensures();
    s2.to_multiset_ensures();
    assert(s1.len() == s2.len());
    if s1.len() > 0 {
        if forall|i: int| 0 <= i < s1.len() ==> #[trigger] s1[i] == s1[0] {
            lemma_all_reports_equal_carries(s1, s2);
        } else if forall|i: int| 0 <= i < s2.len() ==> #[trigger] s2[i] == s2[0] {
            lemma_all_reports_equal_carries(s2, s1);
            assert(false);
        }
    }
}

/// When every report of one list is the same mode, every report of a list
/// with the same multiset of reports is that mode too.
proof fn lemma_all_reports_equal_carries(s1: Seq<OperatingMode>, s2: Seq<OperatingMode>)
    requires
        s1.to_multiset() == s2.to_multiset(),
        s1.len() > 0,
        s2.len() > 0,
        forall|i: int| 0 <= i < s1.len() ==> #[trigger] s1[i] == s1[0],
    ensures
        forall|i: int| 0 <= i < s2.len() ==> #[trigger] s2[i] == s2[0],
        s2[0] == s1[0],
{
    s1.to_multiset_ensures();
    s2.to_multiset_ensures();
    assert forall|i: int| 0 <= i < s2.len() implies #[trigger] s2[i] == s1[0] by {
        assert(s2.contains(s2[i]));
        assert(s2.to_multiset().count(s2[i]) > 0);
        assert(s1.to_multiset().count(s2[i]) > 0);
        assert(s1.contains(s2[i]));
        let j = choose|j: int| 0 <= j < s1.len() && s1[j] == s2[i];
        assert(s1[j] == s1[0]);
    };
}

/// Character-by-character string equality.
fn str_eq(a: &str, b: &str) -> (r: bool)
    ensures
        r == (a@ == b@),
{
    let an = a.unicode_len();
    let bn = b.unicode_len();
    if an != bn {
        return false;
    }
    let mut i: usize = 0;
    while i < an
        invariant
            i <= an,
            an == a@.len(),
            an == b@.len(),
            forall|j: int| 0 <= j < i ==> a@[j] == b@[j],
        decreases an - i,
    {
        if a.get_char(i) != b.get_char(i) {
            return false;
        }
        i = i + 1;
    }
    proof {
        assert(a@ =~= b@);
    }
    true
}

/// The aggregate mode of a list of per-device mode reports: the common mode
/// when all reports agree, `Inconsistent` when any two differ or when the
/// list is empty.
pub fn aggregate_modes(modes: &Vec<OperatingMode>) -> (agg: OperatingMode)
    ensures
        agg == spec_aggregate(modes@),
        modes@.len() == 0 ==> agg == OperatingMode::Inconsistent,
        (exists|i: int, j: int|
            0 <= i < modes@.len() && 0 <= j < modes@.len() && modes@[i] != modes@[j]) ==> agg
            == OperatingMode::Inconsistent,
{
    if modes.len() == 0 {
        return OperatingMode::Inconsistent;
    }
    let first = modes[0];
    let mut i: usize = 1;
    while i < modes.len()
        invariant
            1 <= i <= modes@.len(),
            first == modes@[0],
            forall|j: int| 0 <= j < i ==> #[trigger] modes@[j] == modes@[0],
        decreases modes@.len() - i,
    {
        if modes[i] != first {
            return OperatingMode::Inconsistent;
        }
        i = i + 1;
    }
    first
}

} // verus!
