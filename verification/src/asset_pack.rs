//! Asset packs: their metadata snapshot and the status flags the framework
//! reports for them.

use vstd::prelude::*;

verus! {

/// The metadata of an asset pack, taken at one moment.
#[derive(Clone, Debug, PartialEq, Eq)]
pub struct AssetPackSnapshot {
    pub id: String,
    pub download_size: i64,
    pub version: i64,
    pub description: String,
}

/// A set of asset-pack status flags, held as their bits.
#[derive(Clone, Copy, Debug, PartialEq, Eq, Hash, Structural)]
pub struct AssetPackStatus(pub u64);

impl AssetPackStatus {
    /// The status with one flag: a download is available.
    pub fn download_available() -> (r: Self)
        ensures
            r.0 == 1,
    {
        AssetPackStatus(1)
    }

    /// The status with one flag: an update is available.
    pub fn update_available() -> (r: Self)
        ensures
            r.0 == 2,
    {
        AssetPackStatus(2)
    }

    /// The status with one flag: the local copy is up to date.
    pub fn up_to_date() -> (r: Self)
        ensures
            r.0 == 4,
    {
        AssetPackStatus(4)
    }

    /// The status with one flag: the local copy is out of date.
    pub fn out_of_date() -> (r: Self)
        ensures
            r.0 == 8,
    {
        AssetPackStatus(8)
    }

    /// The status with one flag: the pack is obsolete.
    pub fn obsolete() -> (r: Self)
        ensures
            r.0 == 16,
    {
        AssetPackStatus(16)
    }

    /// The status with one flag: the pack is downloading.
    pub fn downloading() -> (r: Self)
        ensures
            r.0 == 32,
    {
        AssetPackStatus(32)
    }

    /// The status with one flag: the pack is downloaded.
    pub fn downloaded() -> (r: Self)
        ensures
            r.0 == 64,
    {
        AssetPackStatus(64)
    }

    /// Whether every flag of `other` is set in `self`.
    pub open spec fn spec_contains(self, other: Self) -> bool {
        self.0 & other.0 == other.0
    }

    /// The status with the given bits.
    pub fn new(bits: u64) -> (r: Self)
        ensures
            r.0 == bits,
    {
        AssetPackStatus(bits)
    }

    /// The bits of the status.
    pub fn bits(self) -> (r: u64)
        ensures
            r == self.0,
    {
        self.0
    }

    /// Whether every flag of `other` is set in `self`.
    pub fn contains(self, other: Self) -> (r: bool)
        ensures
            r == self.spec_contains(other),
    {
        (self.0 & other.0) == other.0
    }

    /// Whether no flag is set.
    pub fn is_empty(self) -> (r: bool)
        ensures
            r == (self.0 == 0),
    {
        self.0 == 0
    }
}

impl core::ops::BitOr for AssetPackStatus {
    type Output = Self;

    fn bitor(self, rhs: Self) -> (r: Self)
        ensures
            r.0 == self.0 | rhs.0,
    {
        AssetPackStatus(self.0 | rhs.0)
    }
}

impl vstd::std_specs::ops::BitOrSpecImpl for AssetPackStatus {
    open spec fn obeys_bitor_spec() -> bool {
        true
    }

    open spec fn bitor_req(self, rhs: Self) -> bool {
        true
    }

    open spec fn bitor_spec(self, rhs: Self) -> Self {
        AssetPackStatus(self.0 | rhs.0)
    }
}

impl core::ops::BitAnd for AssetPackStatus {
    type Output = Self;

    fn bitand(self, rhs: Self) -> (r: Self)
        ensures
            r.0 == self.0 & rhs.0,
    {
        AssetPackStatus(self.0 & rhs.0)
    }
}

impl vstd::std_specs::ops::BitAndSpecImpl for AssetPackStatus {
    open spec fn obeys_bitand_spec() -> bool {
        true
    }

    open spec fn bitand_req(self, rhs: Self) -> bool {
        true
    }

    open spec fn bitand_spec(self, rhs: Self) -> Self {
        AssetPackStatus(self.0 & rhs.0)
    }
}

impl core::ops::BitOrAssign for AssetPackStatus {
    fn bitor_assign(&mut self, rhs: Self)
        ensures
            final(self).0 == old(self).0 | rhs.0,
    {
        self.0 = self.0 | rhs.0;
    }
}

impl core::ops::BitAndAssign for AssetPackStatus {
    fn bitand_assign(&mut self, rhs: Self)
        ensures
            final(self).0 == old(self).0 & rhs.0,
    {
        self.0 = self.0 & rhs.0;
    }
}

/// The bits of the seven status flags, in the framework's order.
pub open spec fn flag_bits() -> Seq<u64> {
    seq![1u64, 2u64, 4u64, 8u64, 16u64, 32u64, 64u64]
}

/// A status holds every flag of itself and of the empty status.
pub proof fn law_contains_self_and_empty(a: AssetPackStatus)
    ensures
        a.spec_contains(a),
        a.spec_contains(AssetPackStatus(0)),
{
    let x = a.0;
    assert(x & x == x && x & 0u64 == 0u64) by (bit_vector);
}

/// The union of two statuses holds every flag of each.
pub proof fn law_union_contains_both(a: AssetPackStatus, b: AssetPackStatus)
    ensures
        AssetPackStatus(a.0 | b.0).spec_contains(a),
        AssetPackStatus(a.0 | b.0).spec_contains(b),
{
    let x = a.0;
    let y = b.0;
    assert((x | y) & x == x && (x | y) & y == y) by (bit_vector);
}

/// Each of two statuses holds every flag of their intersection.
pub proof fn law_intersection_is_contained(a: AssetPackStatus, b: AssetPackStatus)
    ensures
        a.spec_contains(AssetPackStatus(a.0 & b.0)),
        b.spec_contains(AssetPackStatus(a.0 & b.0)),
{
    let x = a.0;
    let y = b.0;
    assert(x & (x & y) == x & y && y & (x & y) == x & y) by (bit_vector);
}

/// Holding every flag is transitive, and two statuses that hold each
/// other's flags are the same.
pub proof fn law_contains_is_an_order(a: AssetPackStatus, b: AssetPackStatus, c: AssetPackStatus)
    ensures
        a.spec_contains(b) && b.spec_contains(c) ==> a.spec_contains(c),
        a.spec_contains(b) && b.spec_contains(a) ==> a == b,
{
    let x = a.0;
    let y = b.0;
    let z = c.0;
    assert((x & y == y && y & z == z) ==> x & z == z) by (bit_vector);
    assert((x & y == y && y & x == x) ==> x == y) by (bit_vector);
}

/// The seven flags are distinct single bits: none holds another, and none
/// is empty.
pub proof fn law_flags_are_distinct()
    ensures
        forall|i: int, j: int| 0 <= i < 7 && 0 <= j < 7 && i != j ==>
            !AssetPackStatus(#[trigger] flag_bits()[i]).spec_contains(AssetPackStatus(#[trigger] flag_bits()[j])),
        forall|i: int| 0 <= i < 7 ==> #[trigger] flag_bits()[i] != 0,
{
    assert(
        1u64 & 2u64 == 0u64 && 1u64 & 4u64 == 0u64 && 1u64 & 8u64 == 0u64 && 1u64 & 16u64 == 0u64
        && 1u64 & 32u64 == 0u64 && 1u64 & 64u64 == 0u64 && 2u64 & 4u64 == 0u64 && 2u64 & 8u64 == 0u64
        && 2u64 & 16u64 == 0u64 && 2u64 & 32u64 == 0u64 && 2u64 & 64u64 == 0u64 && 4u64 & 8u64 == 0u64
        && 4u64 & 16u64 == 0u64 && 4u64 & 32u64 == 0u64 && 4u64 & 64u64 == 0u64 && 8u64 & 16u64 == 0u64
        && 8u64 & 32u64 == 0u64 && 8u64 & 64u64 == 0u64 && 16u64 & 32u64 == 0u64 && 16u64 & 64u64 == 0u64
        && 32u64 & 64u64 == 0u64
        && 2u64 & 1u64 == 0u64 && 4u64 & 1u64 == 0u64 && 8u64 & 1u64 == 0u64 && 16u64 & 1u64 == 0u64
        && 32u64 & 1u64 == 0u64 && 64u64 & 1u64 == 0u64 && 4u64 & 2u64 == 0u64 && 8u64 & 2u64 == 0u64
        && 16u64 & 2u64 == 0u64 && 32u64 & 2u64 == 0u64 && 64u64 & 2u64 == 0u64 && 8u64 & 4u64 == 0u64
        && 16u64 & 4u64 == 0u64 && 32u64 & 4u64 == 0u64 && 64u64 & 4u64 == 0u64 && 16u64 & 8u64 == 0u64
        && 32u64 & 8u64 == 0u64 && 64u64 & 8u64 == 0u64 && 32u64 & 16u64 == 0u64 && 64u64 & 16u64 == 0u64
        && 64u64 & 32u64 == 0u64
    ) by (bit_vector);
}

/// A status holds another exactly when every bit set in the other is set in
/// it too: adding the other's bits leaves it unchanged. A status therefore
/// never holds a flag whose bit it lacks.
pub proof fn law_contains_means_every_bit_is_set(a: AssetPackStatus, b: AssetPackStatus)
    ensures
        a.spec_contains(b) <==> (a.0 | b.0) == a.0,
        a.spec_contains(b) ==> (a.0 & b.0) == b.0,
        (a.0 & b.0) == b.0 ==> a.spec_contains(b),
{
    let x = a.0;
    let y = b.0;
    assert((x & y == y) <==> ((x | y) == x)) by (bit_vector);
}

/// A status holds the single flag with bit `k` exactly when its bit `k` is
/// set.
pub proof fn law_single_flag_is_its_bit(a: AssetPackStatus, k: u64)
    requires
        k < 64,
    ensures
        a.spec_contains(AssetPackStatus(1u64 << k)) <==> ((a.0 >> k) & 1u64) == 1u64,
{
    let x = a.0;
    assert((x & (1u64 << k)) == (1u64 << k) <==> ((x >> k) & 1u64) == 1u64) by (bit_vector)
        requires k < 64;
}

} // verus!
