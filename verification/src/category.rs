//! Event categories: a small set of capability flags attached to every event,
//! stored as a bit mask and reasoned about as a mathematical set.

use vstd::prelude::*;

verus! {

/// One capability an event can have.
#[derive(Clone, Copy, Debug, PartialEq, Eq)]
pub enum CategoryFlag {
    Application,
    Input,
    Keyboard,
    Mouse,
    MouseButton,
}

impl CategoryFlag {
    /// The single bit that stands for this flag in a category's bit mask.
    pub open spec fn mask(self) -> u16 {
        match self {
            CategoryFlag::Application => 0x01,
            CategoryFlag::Input => 0x02,
            CategoryFlag::Keyboard => 0x04,
            CategoryFlag::Mouse => 0x08,
            CategoryFlag::MouseButton => 0x10,
        }
    }
}

/// The bit mask that encodes a set of flags: the sum of the masks of its members.
pub open spec fn encoding(flags: Set<CategoryFlag>) -> int {
    (if flags.contains(CategoryFlag::Application) { 0x01int } else { 0 })
        + (if flags.contains(CategoryFlag::Input) { 0x02int } else { 0 })
        + (if flags.contains(CategoryFlag::Keyboard) { 0x04int } else { 0 })
        + (if flags.contains(CategoryFlag::Mouse) { 0x08int } else { 0 })
        + (if flags.contains(CategoryFlag::MouseButton) { 0x10int } else { 0 })
}

/// A set of [`CategoryFlag`]s. Its view is that set.
#[derive(Clone, Copy, Debug, PartialEq, Eq)]
pub struct EventCategory {
    bits: u16,
}

impl View for EventCategory {
    type V = Set<CategoryFlag>;

    closed spec fn view(&self) -> Set<CategoryFlag> {
        Set::new(|flag: CategoryFlag| self.bits & flag.mask() != 0)
    }
}

impl EventCategory {
    /// Only the five flag bits are ever set.
    #[verifier::type_invariant]
    pub closed spec fn well_formed(&self) -> bool {
        self.bits <= 0x1f
    }

    /// The empty category.
    pub fn none() -> (category: EventCategory)
        ensures
            category@ == Set::<CategoryFlag>::empty(),
    {
        assert(forall|m: u16| 0u16 & m == 0) by (bit_vector);
        EventCategory { bits: 0x00 }
    }

    /// The category that holds `flag` and nothing else.
    pub fn single(flag: CategoryFlag) -> (category: EventCategory)
        ensures
            category@ == set![flag],
    {
        let bits: u16 = match flag {
            CategoryFlag::Application => 0x01,
            CategoryFlag::Input => 0x02,
            CategoryFlag::Keyboard => 0x04,
            CategoryFlag::Mouse => 0x08,
            CategoryFlag::MouseButton => 0x10,
        };
        proof {
            assert(bits == flag.mask());
            lemma_flag_masks();
        }
        let category = EventCategory { bits };
        assert(category@ =~= set![flag]);
        category
    }

    /// The bit mask of this category.
    pub fn bits(&self) -> (bits: u16)
        ensures
            bits == encoding(self@),
    {
        proof {
            use_type_invariant(self);
            lemma_mask_splits(self.bits);
        }
        self.bits
    }

    /// The category with bit mask `bits`, if `bits` sets no bit but the five flag bits.
    pub fn from_bits(bits: u16) -> (category: Option<EventCategory>)
        ensures
            category is Some <==> bits <= 0x1f,
            category matches Some(c) ==> encoding(c@) == bits,
    {
        if bits <= 0x1f {
            proof {
                lemma_mask_splits(bits);
            }
            Some(EventCategory { bits })
        } else {
            None
        }
    }

    /// The flags that are in `self` or in `other`.
    pub fn union(self, other: EventCategory) -> (joined: EventCategory)
        ensures
            joined@ == self@.union(other@),
    {
        let bits = self.bits | other.bits;
        proof {
            use_type_invariant(&self);
            use_type_invariant(&other);
            let a = self.bits;
            let b = other.bits;
            assert(a | b <= 0x1f) by (bit_vector)
                requires
                    a <= 0x1f,
                    b <= 0x1f,
            ;
            assert(forall|m: u16| ((a | b) & m != 0) <==> (a & m != 0 || b & m != 0))
                by (bit_vector);
        }
        let joined = EventCategory { bits };
        assert(joined@ =~= self@.union(other@));
        joined
    }

    /// The flags that are both in `self` and in `other`.
    pub fn intersection(self, other: EventCategory) -> (common: EventCategory)
        ensures
            common@ == self@.intersect(other@),
    {
        let bits = self.bits & other.bits;
        proof {
            use_type_invariant(&self);
            let a = self.bits;
            let b = other.bits;
            assert(a & b <= 0x1f) by (bit_vector)
                requires
                    a <= 0x1f,
            ;
            assert forall|flag: CategoryFlag|
                ((a & b) & flag.mask() != 0) <==> (a & flag.mask() != 0 && b & flag.mask() != 0) by {
                lemma_single_bit_meet(a, b, flag);
            }
        }
        let common = EventCategory { bits };
        assert(common@ =~= self@.intersect(other@));
        common
    }

    /// Whether this category holds no flag.
    pub fn is_empty(&self) -> (empty: bool)
        ensures
            empty <==> self@ == Set::<CategoryFlag>::empty(),
    {
        proof {
            use_type_invariant(self);
            lemma_mask_splits(self.bits);
            if self.bits == 0 {
                assert(self@ =~= Set::<CategoryFlag>::empty());
            }
        }
        self.bits == 0
    }

    /// Whether `self` and `other` have a flag in common.
    pub fn intersects(&self, other: EventCategory) -> (hit: bool)
        ensures
            hit <==> !self@.disjoint(other@),
    {
        let common = self.intersection(other);
        let empty = common.is_empty();
        proof {
            if empty {
                assert forall|flag: CategoryFlag| self@.contains(flag) implies !other@.contains(
                    flag,
                ) by {
                    assert(!common@.contains(flag));
                }
            } else {
                assert(!(common@ =~= Set::<CategoryFlag>::empty()));
                let flag = choose|flag: CategoryFlag| common@.contains(flag);
                assert(self@.contains(flag) && other@.contains(flag));
            }
        }
        !empty
    }
}

/// Two well-formed categories that hold the same flags are the same value.
pub proof fn lemma_flags_determine_category(a: EventCategory, b: EventCategory)
    requires
        a.well_formed(),
        b.well_formed(),
        a@ == b@,
    ensures
        a == b,
{
    lemma_mask_splits(a.bits);
    lemma_mask_splits(b.bits);
}

/// The five flag masks are single, distinct bits.
proof fn lemma_flag_masks()
    ensures
        forall|a: CategoryFlag, b: CategoryFlag|
            (#[trigger] a.mask() & #[trigger] b.mask() != 0) <==> a == b,
{
    assert(0x01u16 & 0x01u16 != 0 && 0x02u16 & 0x02u16 != 0 && 0x04u16 & 0x04u16 != 0 && 0x08u16
        & 0x08u16 != 0 && 0x10u16 & 0x10u16 != 0) by (bit_vector);
    assert(0x01u16 & 0x02u16 == 0 && 0x01u16 & 0x04u16 == 0 && 0x01u16 & 0x08u16 == 0 && 0x01u16
        & 0x10u16 == 0) by (bit_vector);
    assert(0x02u16 & 0x01u16 == 0 && 0x02u16 & 0x04u16 == 0 && 0x02u16 & 0x08u16 == 0 && 0x02u16
        & 0x10u16 == 0) by (bit_vector);
    assert(0x04u16 & 0x01u16 == 0 && 0x04u16 & 0x02u16 == 0 && 0x04u16 & 0x08u16 == 0 && 0x04u16
        & 0x10u16 == 0) by (bit_vector);
    assert(0x08u16 & 0x01u16 == 0 && 0x08u16 & 0x02u16 == 0 && 0x08u16 & 0x04u16 == 0 && 0x08u16
        & 0x10u16 == 0) by (bit_vector);
    assert(0x10u16 & 0x01u16 == 0 && 0x10u16 & 0x02u16 == 0 && 0x10u16 & 0x04u16 == 0 && 0x10u16
        & 0x08u16 == 0) by (bit_vector);
}

/// A flag's bit is set in `a & b` exactly when it is set in both.
proof fn lemma_single_bit_meet(a: u16, b: u16, flag: CategoryFlag)
    ensures
        ((a & b) & flag.mask() != 0) <==> (a & flag.mask() != 0 && b & flag.mask() != 0),
{
    let m = flag.mask();
    assert(((a & b) & m != 0) <==> (a & m != 0 && b & m != 0)) by (bit_vector)
        requires
            m == 0x01 || m == 0x02 || m == 0x04 || m == 0x08 || m == 0x10,
    ;
}

/// A mask within the five flag bits is the sum of the flag bits set in it.
proof fn lemma_mask_splits(bits: u16)
    requires
        bits <= 0x1f,
    ensures
        bits == encoding(Set::new(|flag: CategoryFlag| bits & flag.mask() != 0)),
        bits == 0 <==> forall|flag: CategoryFlag| bits & #[trigger] flag.mask() == 0,
{
    assert(bits == (bits & 0x01) + (bits & 0x02) + (bits & 0x04) + (bits & 0x08) + (bits & 0x10))
        by (bit_vector)
        requires
            bits <= 0x1f,
    ;
    assert((bits & 0x01 == 0 || bits & 0x01 == 0x01) && (bits & 0x02 == 0 || bits & 0x02 == 0x02)
        && (bits & 0x04 == 0 || bits & 0x04 == 0x04) && (bits & 0x08 == 0 || bits & 0x08 == 0x08)
        && (bits & 0x10 == 0 || bits & 0x10 == 0x10)) by (bit_vector);
    let flags = Set::new(|flag: CategoryFlag| bits & flag.mask() != 0);
    assert(flags.contains(CategoryFlag::Application) <==> bits & CategoryFlag::Application.mask() != 0);
    assert(flags.contains(CategoryFlag::Input) <==> bits & CategoryFlag::Input.mask() != 0);
    assert(flags.contains(CategoryFlag::Keyboard) <==> bits & CategoryFlag::Keyboard.mask() != 0);
    assert(flags.contains(CategoryFlag::Mouse) <==> bits & CategoryFlag::Mouse.mask() != 0);
    assert(flags.contains(CategoryFlag::MouseButton) <==> bits & CategoryFlag::MouseButton.mask() != 0);
    if bits == 0 {
        assert(forall|m: u16| 0u16 & m == 0) by (bit_vector);
    }
}

} // verus!
