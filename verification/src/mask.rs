use vstd::prelude::*;

verus! {

/// The thirteen kinds of component an entity can carry.  Each kind owns one
/// bit of a [`ComponentMask`], at the position given by [`ComponentType::index`].
#[derive(Debug, Copy, Clone, Hash, PartialEq, Eq, Structural)]
pub enum ComponentType {
    Position,
    Velocity,
    Vibe,
    Health,
    AgentAI,
    Renderable,
    Collider,
    Inventory,
    Pet,
    Dialogue,
    BiomeAffinity,
    Craftable,
    QuestTarget,
}

/// The number of component kinds.
pub const COMPONENT_KINDS: u8 = 13;

impl ComponentType {
    /// The bit position of this kind, in declaration order.
    pub open spec fn idx(self) -> nat {
        match self {
            ComponentType::Position => 0,
            ComponentType::Velocity => 1,
            ComponentType::Vibe => 2,
            ComponentType::Health => 3,
            ComponentType::AgentAI => 4,
            ComponentType::Renderable => 5,
            ComponentType::Collider => 6,
            ComponentType::Inventory => 7,
            ComponentType::Pet => 8,
            ComponentType::Dialogue => 9,
            ComponentType::BiomeAffinity => 10,
            ComponentType::Craftable => 11,
            ComponentType::QuestTarget => 12,
        }
    }

    /// The bit position of this kind: `Position` is 0, `QuestTarget` is 12.
    pub fn index(self) -> (r: u8)
        ensures
            r == self.idx(),
            r < COMPONENT_KINDS,
    {
        match self {
            ComponentType::Position => 0,
            ComponentType::Velocity => 1,
            ComponentType::Vibe => 2,
            ComponentType::Health => 3,
            ComponentType::AgentAI => 4,
            ComponentType::Renderable => 5,
            ComponentType::Collider => 6,
            ComponentType::Inventory => 7,
            ComponentType::Pet => 8,
            ComponentType::Dialogue => 9,
            ComponentType::BiomeAffinity => 10,
            ComponentType::Craftable => 11,
            ComponentType::QuestTarget => 12,
        }
    }
}

impl ComponentType {
    /// The kind whose bit position is `i`.
    pub(crate) fn at_index(i: u8) -> (r: ComponentType)
        requires
            i < COMPONENT_KINDS,
        ensures
            r.idx() == i,
    {
        match i {
            0 => ComponentType::Position,
            1 => ComponentType::Velocity,
            2 => ComponentType::Vibe,
            3 => ComponentType::Health,
            4 => ComponentType::AgentAI,
            5 => ComponentType::Renderable,
            6 => ComponentType::Collider,
            7 => ComponentType::Inventory,
            8 => ComponentType::Pet,
            9 => ComponentType::Dialogue,
            10 => ComponentType::BiomeAffinity,
            11 => ComponentType::Craftable,
            _ => ComponentType::QuestTarget,
        }
    }
}

/// Distinct kinds own distinct bits.
pub proof fn lemma_idx_injective(a: ComponentType, b: ComponentType)
    ensures
        a.idx() == b.idx() <==> a == b,
        a.idx() < COMPONENT_KINDS,
{
}

/// The single-bit word for bit position `i`.
pub open spec fn bit(i: nat) -> u64 {
    1u64 << (i as u64)
}

/// Whether bit `i` of `m` is set.
pub open spec fn has_bit(m: u64, i: nat) -> bool {
    m & bit(i) != 0
}

/// A bit set over the component kinds: bit `t.index()` is set when the owner
/// carries a component of kind `t`.
#[derive(Debug, Copy, Clone)]
pub struct ComponentMask(u64);

impl ComponentMask {
    /// The raw bit word.
    pub closed spec fn bits(self) -> u64 {
        self.0
    }

    /// Whether the mask holds kind `t`.
    pub open spec fn holds(self, t: ComponentType) -> bool {
        has_bit(self.bits(), t.idx())
    }

    /// Only the thirteen bits that name a component kind may be set.
    pub open spec fn wf(self) -> bool {
        self.bits() < 8192
    }

    /// The empty mask.
    pub closed spec fn empty() -> Self {
        ComponentMask(0)
    }

    /// This mask with the bit of `t` set.
    pub closed spec fn added(self, t: ComponentType) -> Self {
        ComponentMask(self.0 | bit(t.idx()))
    }

    /// This mask with the bit of `t` cleared.
    pub closed spec fn removed(self, t: ComponentType) -> Self {
        ComponentMask(self.0 & !bit(t.idx()))
    }

    /// The empty mask holds no kind.
    pub broadcast proof fn lemma_empty(t: ComponentType)
        ensures
            !#[trigger] Self::empty().holds(t),
            Self::empty().wf(),
            Self::empty().bits() == 0,
    {
        lemma_zero_has_no_bit(t.idx() as u64);
    }

    /// Adding `t` makes the mask hold `t` and keeps every other kind as it was.
    pub broadcast proof fn lemma_added(m: Self, t: ComponentType, u: ComponentType)
        ensures
            #[trigger] m.added(t).holds(u) == (u == t || m.holds(u)),
            m.wf() ==> m.added(t).wf(),
            m.added(t).bits() == m.bits() | bit(t.idx()),
    {
        lemma_idx_injective(t, u);
        lemma_or_bit(m.0, t.idx() as u64);
        if u != t {
            lemma_or_other_bit(m.0, t.idx() as u64, u.idx() as u64);
        }
    }

    /// Removing `t` makes the mask lack `t` and keeps every other kind as it was.
    pub broadcast proof fn lemma_removed(m: Self, t: ComponentType, u: ComponentType)
        ensures
            #[trigger] m.removed(t).holds(u) == (u != t && m.holds(u)),
            m.wf() ==> m.removed(t).wf(),
            m.removed(t).bits() == m.bits() & !bit(t.idx()),
    {
        lemma_idx_injective(t, u);
        lemma_clear_bit(m.0, t.idx() as u64);
        if u != t {
            lemma_clear_other_bit(m.0, t.idx() as u64, u.idx() as u64);
        }
    }

    /// Masks with the same bit word are the same mask.
    pub proof fn lemma_bits_injective(a: Self, b: Self)
        ensures
            a.bits() == b.bits() <==> a == b,
    {
    }

    /// The empty mask.
    pub fn new() -> (r: Self)
        ensures
            r == Self::empty(),
            r.bits() == 0,
            r.wf(),
            forall|t: ComponentType| !r.holds(t),
    {
        proof {
            assert forall|t: ComponentType| !has_bit(0, t.idx()) by {
                lemma_idx_injective(t, t);
                lemma_zero_has_no_bit(t.idx() as u64);
            }
        }
        ComponentMask(0)
    }

    /// Builder form of [`ComponentMask::insert`].
    pub fn with(self, ty: ComponentType) -> (r: Self)
        ensures
            r == self.added(ty),
            r.bits() == self.bits() | bit(ty.idx()),
            r.holds(ty),
            forall|t: ComponentType| t != ty ==> r.holds(t) == self.holds(t),
            self.wf() ==> r.wf(),
    {
        let mut m = self;
        m.insert(ty);
        m
    }

    /// Set the bit of `ty`, leaving every other bit as it was.
    pub fn insert(&mut self, ty: ComponentType)
        ensures
            *final(self) == old(self).added(ty),
            final(self).bits() == old(self).bits() | bit(ty.idx()),
            final(self).holds(ty),
            forall|t: ComponentType| t != ty ==> final(self).holds(t) == old(self).holds(t),
            old(self).wf() ==> final(self).wf(),
    {
        let i: u8 = ty.index();
        proof {
            lemma_idx_injective(ty, ty);
            lemma_or_bit(self.0, i as u64);
            assert forall|t: ComponentType| t != ty implies
                has_bit(self.0 | bit(ty.idx()), t.idx()) == has_bit(self.0, t.idx()) by {
                lemma_idx_injective(t, ty);
                lemma_or_other_bit(self.0, i as u64, t.idx() as u64);
            }
        }
        self.0 = self.0 | (1u64 << i);
    }

    /// Clear the bit of `ty`, leaving every other bit as it was.
    pub fn remove(&mut self, ty: ComponentType)
        ensures
            *final(self) == old(self).removed(ty),
            final(self).bits() == old(self).bits() & !bit(ty.idx()),
            !final(self).holds(ty),
            forall|t: ComponentType| t != ty ==> final(self).holds(t) == old(self).holds(t),
            old(self).wf() ==> final(self).wf(),
    {
        let i: u8 = ty.index();
        proof {
            lemma_idx_injective(ty, ty);
            lemma_clear_bit(self.0, i as u64);
            assert forall|t: ComponentType| t != ty implies
                has_bit(self.0 & !bit(ty.idx()), t.idx()) == has_bit(self.0, t.idx()) by {
                lemma_idx_injective(t, ty);
                lemma_clear_other_bit(self.0, i as u64, t.idx() as u64);
            }
        }
        self.0 = self.0 & !(1u64 << i);
    }

    /// Whether the bit of `ty` is set.
    pub fn has(&self, ty: ComponentType) -> (r: bool)
        ensures
            r == self.holds(ty),
    {
        (self.0 & (1u64 << ty.index())) != 0
    }

    /// Returns `true` if *all* bits in `other` are present in this mask.
    pub fn matches(&self, other: &ComponentMask) -> (r: bool)
        ensures
            r == (self.bits() & other.bits() == other.bits()),
            r <==> forall|i: nat| i < 64 ==> (#[trigger] has_bit(other.bits(), i) ==> has_bit(self.bits(), i)),
            other.wf() ==> (r <==> forall|t: ComponentType| other.holds(t) ==> self.holds(t)),
    {
        proof {
            lemma_contains_bits(self.bits(), other.bits());
            if other.wf() {
                lemma_contains_kinds(*self, *other);
            }
        }
        self.0 & other.0 == other.0
    }

    /// The raw bit word.
    pub fn inner(&self) -> (r: u64)
        ensures
            r == self.bits(),
    {
        self.0
    }

    /// The mask whose raw bit word is `bits`.
    pub fn from_bits(bits: u64) -> (r: Self)
        ensures
            r.bits() == bits,
    {
        ComponentMask(bits)
    }
}

impl Default for ComponentMask {
    fn default() -> (r: Self)
        ensures
            r == ComponentMask::empty(),
            r.bits() == 0,
    {
        ComponentMask::new()
    }
}

/// `a & b == b` says exactly that every bit of `b` is a bit of `a`.
proof fn lemma_all_bits_subset(a: u64, b: u64)
    ensures
        (a & b == b) <==> (
        ((b & (1u64 << 0u64) != 0) ==> (a & (1u64 << 0u64) != 0)) &&
        ((b & (1u64 << 1u64) != 0) ==> (a & (1u64 << 1u64) != 0)) &&
        ((b & (1u64 << 2u64) != 0) ==> (a & (1u64 << 2u64) != 0)) &&
        ((b & (1u64 << 3u64) != 0) ==> (a & (1u64 << 3u64) != 0)) &&
        ((b & (1u64 << 4u64) != 0) ==> (a & (1u64 << 4u64) != 0)) &&
        ((b & (1u64 << 5u64) != 0) ==> (a & (1u64 << 5u64) != 0)) &&
        ((b & (1u64 << 6u64) != 0) ==> (a & (1u64 << 6u64) != 0)) &&
        ((b & (1u64 << 7u64) != 0) ==> (a & (1u64 << 7u64) != 0)) &&
        ((b & (1u64 << 8u64) != 0) ==> (a & (1u64 << 8u64) != 0)) &&
        ((b & (1u64 << 9u64) != 0) ==> (a & (1u64 << 9u64) != 0)) &&
        ((b & (1u64 << 10u64) != 0) ==> (a & (1u64 << 10u64) != 0)) &&
        ((b & (1u64 << 11u64) != 0) ==> (a & (1u64 << 11u64) != 0)) &&
        ((b & (1u64 << 12u64) != 0) ==> (a & (1u64 << 12u64) != 0)) &&
        ((b & (1u64 << 13u64) != 0) ==> (a & (1u64 << 13u64) != 0)) &&
        ((b & (1u64 << 14u64) != 0) ==> (a & (1u64 << 14u64) != 0)) &&
        ((b & (1u64 << 15u64) != 0) ==> (a & (1u64 << 15u64) != 0)) &&
        ((b & (1u64 << 16u64) != 0) ==> (a & (1u64 << 16u64) != 0)) &&
        ((b & (1u64 << 17u64) != 0) ==> (a & (1u64 << 17u64) != 0)) &&
        ((b & (1u64 << 18u64) != 0) ==> (a & (1u64 << 18u64) != 0)) &&
        ((b & (1u64 << 19u64) != 0) ==> (a & (1u64 << 19u64) != 0)) &&
        ((b & (1u64 << 20u64) != 0) ==> (a & (1u64 << 20u64) != 0)) &&
        ((b & (1u64 << 21u64) != 0) ==> (a & (1u64 << 21u64) != 0)) &&
        ((b & (1u64 << 22u64) != 0) ==> (a & (1u64 << 22u64) != 0)) &&
        ((b & (1u64 << 23u64) != 0) ==> (a & (1u64 << 23u64) != 0)) &&
        ((b & (1u64 << 24u64) != 0) ==> (a & (1u64 << 24u64) != 0)) &&
        ((b & (1u64 << 25u64) != 0) ==> (a & (1u64 << 25u64) != 0)) &&
        ((b & (1u64 << 26u64) != 0) ==> (a & (1u64 << 26u64) != 0)) &&
        ((b & (1u64 << 27u64) != 0) ==> (a & (1u64 << 27u64) != 0)) &&
        ((b & (1u64 << 28u64) != 0) ==> (a & (1u64 << 28u64) != 0)) &&
        ((b & (1u64 << 29u64) != 0) ==> (a & (1u64 << 29u64) != 0)) &&
        ((b & (1u64 << 30u64) != 0) ==> (a & (1u64 << 30u64) != 0)) &&
        ((b & (1u64 << 31u64) != 0) ==> (a & (1u64 << 31u64) != 0)) &&
        ((b & (1u64 << 32u64) != 0) ==> (a & (1u64 << 32u64) != 0)) &&
        ((b & (1u64 << 33u64) != 0) ==> (a & (1u64 << 33u64) != 0)) &&
        ((b & (1u64 << 34u64) != 0) ==> (a & (1u64 << 34u64) != 0)) &&
        ((b & (1u64 << 35u64) != 0) ==> (a & (1u64 << 35u64) != 0)) &&
        ((b & (1u64 << 36u64) != 0) ==> (a & (1u64 << 36u64) != 0)) &&
        ((b & (1u64 << 37u64) != 0) ==> (a & (1u64 << 37u64) != 0)) &&
        ((b & (1u64 << 38u64) != 0) ==> (a & (1u64 << 38u64) != 0)) &&
        ((b & (1u64 << 39u64) != 0) ==> (a & (1u64 << 39u64) != 0)) &&
        ((b & (1u64 << 40u64) != 0) ==> (a & (1u64 << 40u64) != 0)) &&
        ((b & (1u64 << 41u64) != 0) ==> (a & (1u64 << 41u64) != 0)) &&
        ((b & (1u64 << 42u64) != 0) ==> (a & (1u64 << 42u64) != 0)) &&
        ((b & (1u64 << 43u64) != 0) ==> (a & (1u64 << 43u64) != 0)) &&
        ((b & (1u64 << 44u64) != 0) ==> (a & (1u64 << 44u64) != 0)) &&
        ((b & (1u64 << 45u64) != 0) ==> (a & (1u64 << 45u64) != 0)) &&
        ((b & (1u64 << 46u64) != 0) ==> (a & (1u64 << 46u64) != 0)) &&
        ((b & (1u64 << 47u64) != 0) ==> (a & (1u64 << 47u64) != 0)) &&
        ((b & (1u64 << 48u64) != 0) ==> (a & (1u64 << 48u64) != 0)) &&
        ((b & (1u64 << 49u64) != 0) ==> (a & (1u64 << 49u64) != 0)) &&
        ((b & (1u64 << 50u64) != 0) ==> (a & (1u64 << 50u64) != 0)) &&
        ((b & (1u64 << 51u64) != 0) ==> (a & (1u64 << 51u64) != 0)) &&
        ((b & (1u64 << 52u64) != 0) ==> (a & (1u64 << 52u64) != 0)) &&
        ((b & (1u64 << 53u64) != 0) ==> (a & (1u64 << 53u64) != 0)) &&
        ((b & (1u64 << 54u64) != 0) ==> (a & (1u64 << 54u64) != 0)) &&
        ((b & (1u64 << 55u64) != 0) ==> (a & (1u64 << 55u64) != 0)) &&
        ((b & (1u64 << 56u64) != 0) ==> (a & (1u64 << 56u64) != 0)) &&
        ((b & (1u64 << 57u64) != 0) ==> (a & (1u64 << 57u64) != 0)) &&
        ((b & (1u64 << 58u64) != 0) ==> (a & (1u64 << 58u64) != 0)) &&
        ((b & (1u64 << 59u64) != 0) ==> (a & (1u64 << 59u64) != 0)) &&
        ((b & (1u64 << 60u64) != 0) ==> (a & (1u64 << 60u64) != 0)) &&
        ((b & (1u64 << 61u64) != 0) ==> (a & (1u64 << 61u64) != 0)) &&
        ((b & (1u64 << 62u64) != 0) ==> (a & (1u64 << 62u64) != 0)) &&
        ((b & (1u64 << 63u64) != 0) ==> (a & (1u64 << 63u64) != 0))),
{
    assert((a & b == b) <==> (
        ((b & (1u64 << 0u64) != 0) ==> (a & (1u64 << 0u64) != 0)) &&
        ((b & (1u64 << 1u64) != 0) ==> (a & (1u64 << 1u64) != 0)) &&
        ((b & (1u64 << 2u64) != 0) ==> (a & (1u64 << 2u64) != 0)) &&
        ((b & (1u64 << 3u64) != 0) ==> (a & (1u64 << 3u64) != 0)) &&
        ((b & (1u64 << 4u64) != 0) ==> (a & (1u64 << 4u64) != 0)) &&
        ((b & (1u64 << 5u64) != 0) ==> (a & (1u64 << 5u64) != 0)) &&
        ((b & (1u64 << 6u64) != 0) ==> (a & (1u64 << 6u64) != 0)) &&
        ((b & (1u64 << 7u64) != 0) ==> (a & (1u64 << 7u64) != 0)) &&
        ((b & (1u64 << 8u64) != 0) ==> (a & (1u64 << 8u64) != 0)) &&
        ((b & (1u64 << 9u64) != 0) ==> (a & (1u64 << 9u64) != 0)) &&
        ((b & (1u64 << 10u64) != 0) ==> (a & (1u64 << 10u64) != 0)) &&
        ((b & (1u64 << 11u64) != 0) ==> (a & (1u64 << 11u64) != 0)) &&
        ((b & (1u64 << 12u64) != 0) ==> (a & (1u64 << 12u64) != 0)) &&
        ((b & (1u64 << 13u64) != 0) ==> (a & (1u64 << 13u64) != 0)) &&
        ((b & (1u64 << 14u64) != 0) ==> (a & (1u64 << 14u64) != 0)) &&
        ((b & (1u64 << 15u64) != 0) ==> (a & (1u64 << 15u64) != 0)) &&
        ((b & (1u64 << 16u64) != 0) ==> (a & (1u64 << 16u64) != 0)) &&
        ((b & (1u64 << 17u64) != 0) ==> (a & (1u64 << 17u64) != 0)) &&
        ((b & (1u64 << 18u64) != 0) ==> (a & (1u64 << 18u64) != 0)) &&
        ((b & (1u64 << 19u64) != 0) ==> (a & (1u64 << 19u64) != 0)) &&
        ((b & (1u64 << 20u64) != 0) ==> (a & (1u64 << 20u64) != 0)) &&
        ((b & (1u64 << 21u64) != 0) ==> (a & (1u64 << 21u64) != 0)) &&
        ((b & (1u64 << 22u64) != 0) ==> (a & (1u64 << 22u64) != 0)) &&
        ((b & (1u64 << 23u64) != 0) ==> (a & (1u64 << 23u64) != 0)) &&
        ((b & (1u64 << 24u64) != 0) ==> (a & (1u64 << 24u64) != 0)) &&
        ((b & (1u64 << 25u64) != 0) ==> (a & (1u64 << 25u64) != 0)) &&
        ((b & (1u64 << 26u64) != 0) ==> (a & (1u64 << 26u64) != 0)) &&
        ((b & (1u64 << 27u64) != 0) ==> (a & (1u64 << 27u64) != 0)) &&
        ((b & (1u64 << 28u64) != 0) ==> (a & (1u64 << 28u64) != 0)) &&
        ((b & (1u64 << 29u64) != 0) ==> (a & (1u64 << 29u64) != 0)) &&
        ((b & (1u64 << 30u64) != 0) ==> (a & (1u64 << 30u64) != 0)) &&
        ((b & (1u64 << 31u64) != 0) ==> (a & (1u64 << 31u64) != 0)) &&
        ((b & (1u64 << 32u64) != 0) ==> (a & (1u64 << 32u64) != 0)) &&
        ((b & (1u64 << 33u64) != 0) ==> (a & (1u64 << 33u64) != 0)) &&
        ((b & (1u64 << 34u64) != 0) ==> (a & (1u64 << 34u64) != 0)) &&
        ((b & (1u64 << 35u64) != 0) ==> (a & (1u64 << 35u64) != 0)) &&
        ((b & (1u64 << 36u64) != 0) ==> (a & (1u64 << 36u64) != 0)) &&
        ((b & (1u64 << 37u64) != 0) ==> (a & (1u64 << 37u64) != 0)) &&
        ((b & (1u64 << 38u64) != 0) ==> (a & (1u64 << 38u64) != 0)) &&
        ((b & (1u64 << 39u64) != 0) ==> (a & (1u64 << 39u64) != 0)) &&
        ((b & (1u64 << 40u64) != 0) ==> (a & (1u64 << 40u64) != 0)) &&
        ((b & (1u64 << 41u64) != 0) ==> (a & (1u64 << 41u64) != 0)) &&
        ((b & (1u64 << 42u64) != 0) ==> (a & (1u64 << 42u64) != 0)) &&
        ((b & (1u64 << 43u64) != 0) ==> (a & (1u64 << 43u64) != 0)) &&
        ((b & (1u64 << 44u64) != 0) ==> (a & (1u64 << 44u64) != 0)) &&
        ((b & (1u64 << 45u64) != 0) ==> (a & (1u64 << 45u64) != 0)) &&
        ((b & (1u64 << 46u64) != 0) ==> (a & (1u64 << 46u64) != 0)) &&
        ((b & (1u64 << 47u64) != 0) ==> (a & (1u64 << 47u64) != 0)) &&
        ((b & (1u64 << 48u64) != 0) ==> (a & (1u64 << 48u64) != 0)) &&
        ((b & (1u64 << 49u64) != 0) ==> (a & (1u64 << 49u64) != 0)) &&
        ((b & (1u64 << 50u64) != 0) ==> (a & (1u64 << 50u64) != 0)) &&
        ((b & (1u64 << 51u64) != 0) ==> (a & (1u64 << 51u64) != 0)) &&
        ((b & (1u64 << 52u64) != 0) ==> (a & (1u64 << 52u64) != 0)) &&
        ((b & (1u64 << 53u64) != 0) ==> (a & (1u64 << 53u64) != 0)) &&
        ((b & (1u64 << 54u64) != 0) ==> (a & (1u64 << 54u64) != 0)) &&
        ((b & (1u64 << 55u64) != 0) ==> (a & (1u64 << 55u64) != 0)) &&
        ((b & (1u64 << 56u64) != 0) ==> (a & (1u64 << 56u64) != 0)) &&
        ((b & (1u64 << 57u64) != 0) ==> (a & (1u64 << 57u64) != 0)) &&
        ((b & (1u64 << 58u64) != 0) ==> (a & (1u64 << 58u64) != 0)) &&
        ((b & (1u64 << 59u64) != 0) ==> (a & (1u64 << 59u64) != 0)) &&
        ((b & (1u64 << 60u64) != 0) ==> (a & (1u64 << 60u64) != 0)) &&
        ((b & (1u64 << 61u64) != 0) ==> (a & (1u64 << 61u64) != 0)) &&
        ((b & (1u64 << 62u64) != 0) ==> (a & (1u64 << 62u64) != 0)) &&
        ((b & (1u64 << 63u64) != 0) ==> (a & (1u64 << 63u64) != 0)))) by (bit_vector);
}

/// When `b` is not contained in `a`, a bit position of `b` that `a` lacks.
proof fn choose_missing_bit(a: u64, b: u64) -> (i: nat)
    requires
        a & b != b,
    ensures
        i < 64,
        has_bit(b, i),
        !has_bit(a, i),
{
    lemma_all_bits_subset(a, b);
    if (b & (1u64 << 0u64) != 0) && (a & (1u64 << 0u64) == 0) {
        0
    } else if (b & (1u64 << 1u64) != 0) && (a & (1u64 << 1u64) == 0) {
        1
    } else if (b & (1u64 << 2u64) != 0) && (a & (1u64 << 2u64) == 0) {
        2
    } else if (b & (1u64 << 3u64) != 0) && (a & (1u64 << 3u64) == 0) {
        3
    } else if (b & (1u64 << 4u64) != 0) && (a & (1u64 << 4u64) == 0) {
        4
    } else if (b & (1u64 << 5u64) != 0) && (a & (1u64 << 5u64) == 0) {
        5
    } else if (b & (1u64 << 6u64) != 0) && (a & (1u64 << 6u64) == 0) {
        6
    } else if (b & (1u64 << 7u64) != 0) && (a & (1u64 << 7u64) == 0) {
        7
    } else if (b & (1u64 << 8u64) != 0) && (a & (1u64 << 8u64) == 0) {
        8
    } else if (b & (1u64 << 9u64) != 0) && (a & (1u64 << 9u64) == 0) {
        9
    } else if (b & (1u64 << 10u64) != 0) && (a & (1u64 << 10u64) == 0) {
        10
    } else if (b & (1u64 << 11u64) != 0) && (a & (1u64 << 11u64) == 0) {
        11
    } else if (b & (1u64 << 12u64) != 0) && (a & (1u64 << 12u64) == 0) {
        12
    } else if (b & (1u64 << 13u64) != 0) && (a & (1u64 << 13u64) == 0) {
        13
    } else if (b & (1u64 << 14u64) != 0) && (a & (1u64 << 14u64) == 0) {
        14
    } else if (b & (1u64 << 15u64) != 0) && (a & (1u64 << 15u64) == 0) {
        15
    } else if (b & (1u64 << 16u64) != 0) && (a & (1u64 << 16u64) == 0) {
        16
    } else if (b & (1u64 << 17u64) != 0) && (a & (1u64 << 17u64) == 0) {
        17
    } else if (b & (1u64 << 18u64) != 0) && (a & (1u64 << 18u64) == 0) {
        18
    } else if (b & (1u64 << 19u64) != 0) && (a & (1u64 << 19u64) == 0) {
        19
    } else if (b & (1u64 << 20u64) != 0) && (a & (1u64 << 20u64) == 0) {
        20
    } else if (b & (1u64 << 21u64) != 0) && (a & (1u64 << 21u64) == 0) {
        21
    } else if (b & (1u64 << 22u64) != 0) && (a & (1u64 << 22u64) == 0) {
        22
    } else if (b & (1u64 << 23u64) != 0) && (a & (1u64 << 23u64) == 0) {
        23
    } else if (b & (1u64 << 24u64) != 0) && (a & (1u64 << 24u64) == 0) {
        24
    } else if (b & (1u64 << 25u64) != 0) && (a & (1u64 << 25u64) == 0) {
        25
    } else if (b & (1u64 << 26u64) != 0) && (a & (1u64 << 26u64) == 0) {
        26
    } else if (b & (1u64 << 27u64) != 0) && (a & (1u64 << 27u64) == 0) {
        27
    } else if (b & (1u64 << 28u64) != 0) && (a & (1u64 << 28u64) == 0) {
        28
    } else if (b & (1u64 << 29u64) != 0) && (a & (1u64 << 29u64) == 0) {
        29
    } else if (b & (1u64 << 30u64) != 0) && (a & (1u64 << 30u64) == 0) {
        30
    } else if (b & (1u64 << 31u64) != 0) && (a & (1u64 << 31u64) == 0) {
        31
    } else if (b & (1u64 << 32u64) != 0) && (a & (1u64 << 32u64) == 0) {
        32
    } else if (b & (1u64 << 33u64) != 0) && (a & (1u64 << 33u64) == 0) {
        33
    } else if (b & (1u64 << 34u64) != 0) && (a & (1u64 << 34u64) == 0) {
        34
    } else if (b & (1u64 << 35u64) != 0) && (a & (1u64 << 35u64) == 0) {
        35
    } else if (b & (1u64 << 36u64) != 0) && (a & (1u64 << 36u64) == 0) {
        36
    } else if (b & (1u64 << 37u64) != 0) && (a & (1u64 << 37u64) == 0) {
        37
    } else if (b & (1u64 << 38u64) != 0) && (a & (1u64 << 38u64) == 0) {
        38
    } else if (b & (1u64 << 39u64) != 0) && (a & (1u64 << 39u64) == 0) {
        39
    } else if (b & (1u64 << 40u64) != 0) && (a & (1u64 << 40u64) == 0) {
        40
    } else if (b & (1u64 << 41u64) != 0) && (a & (1u64 << 41u64) == 0) {
        41
    } else if (b & (1u64 << 42u64) != 0) && (a & (1u64 << 42u64) == 0) {
        42
    } else if (b & (1u64 << 43u64) != 0) && (a & (1u64 << 43u64) == 0) {
        43
    } else if (b & (1u64 << 44u64) != 0) && (a & (1u64 << 44u64) == 0) {
        44
    } else if (b & (1u64 << 45u64) != 0) && (a & (1u64 << 45u64) == 0) {
        45
    } else if (b & (1u64 << 46u64) != 0) && (a & (1u64 << 46u64) == 0) {
        46
    } else if (b & (1u64 << 47u64) != 0) && (a & (1u64 << 47u64) == 0) {
        47
    } else if (b & (1u64 << 48u64) != 0) && (a & (1u64 << 48u64) == 0) {
        48
    } else if (b & (1u64 << 49u64) != 0) && (a & (1u64 << 49u64) == 0) {
        49
    } else if (b & (1u64 << 50u64) != 0) && (a & (1u64 << 50u64) == 0) {
        50
    } else if (b & (1u64 << 51u64) != 0) && (a & (1u64 << 51u64) == 0) {
        51
    } else if (b & (1u64 << 52u64) != 0) && (a & (1u64 << 52u64) == 0) {
        52
    } else if (b & (1u64 << 53u64) != 0) && (a & (1u64 << 53u64) == 0) {
        53
    } else if (b & (1u64 << 54u64) != 0) && (a & (1u64 << 54u64) == 0) {
        54
    } else if (b & (1u64 << 55u64) != 0) && (a & (1u64 << 55u64) == 0) {
        55
    } else if (b & (1u64 << 56u64) != 0) && (a & (1u64 << 56u64) == 0) {
        56
    } else if (b & (1u64 << 57u64) != 0) && (a & (1u64 << 57u64) == 0) {
        57
    } else if (b & (1u64 << 58u64) != 0) && (a & (1u64 << 58u64) == 0) {
        58
    } else if (b & (1u64 << 59u64) != 0) && (a & (1u64 << 59u64) == 0) {
        59
    } else if (b & (1u64 << 60u64) != 0) && (a & (1u64 << 60u64) == 0) {
        60
    } else if (b & (1u64 << 61u64) != 0) && (a & (1u64 << 61u64) == 0) {
        61
    } else if (b & (1u64 << 62u64) != 0) && (a & (1u64 << 62u64) == 0) {
        62
    } else {
        63
    }
}

/// `a & b == b` says exactly that every bit set in `b` is set in `a`.
pub proof fn lemma_contains_bits(a: u64, b: u64)
    ensures
        (a & b == b) <==> forall|i: nat| i < 64 ==> (#[trigger] has_bit(b, i) ==> has_bit(a, i)),
{
    if a & b == b {
        assert forall|i: nat| i < 64 && #[trigger] has_bit(b, i) implies has_bit(a, i) by {
            lemma_and_keeps_bit(a, b, i as u64);
        }
    } else {
        let i: nat = choose_missing_bit(a, b);
        assert(has_bit(b, i) && !has_bit(a, i));
    }
}

/// For a mask `b` with only kind bits, `a & b == b` says exactly that `a`
/// holds every kind that `b` holds.
pub proof fn lemma_contains_kinds(a: ComponentMask, b: ComponentMask)
    requires
        b.wf(),
    ensures
        (a.bits() & b.bits() == b.bits()) <==> forall|t: ComponentType| b.holds(t) ==> a.holds(t),
{
    lemma_subset_of_kinds(a.bits(), b.bits());
    if a.bits() & b.bits() != b.bits() {
        let t = choose_missing_kind(a.bits(), b.bits());
        assert(b.holds(t) && !a.holds(t));
    }
}

/// Adding a kind the mask already holds leaves it as it is.
pub proof fn lemma_insert_present(m: ComponentMask, t: ComponentType)
    requires
        m.holds(t),
    ensures
        m.added(t) == m,
{
    lemma_idx_injective(t, t);
    let b: u64 = m.bits();
    let i: u64 = t.idx() as u64;
    assert((b | (1u64 << i)) == b) by (bit_vector)
        requires
            b & (1u64 << i) != 0,
            i < 64,
    ;
    ComponentMask::lemma_added(m, t, t);
    ComponentMask::lemma_bits_injective(m.added(t), m);
}

/// Removing a kind that adding just set gives back the mask it was added to,
/// when that mask did not hold the kind.
pub proof fn lemma_remove_undoes_insert(m: ComponentMask, t: ComponentType)
    requires
        !m.holds(t),
    ensures
        m.added(t).removed(t) == m,
{
    lemma_idx_injective(t, t);
    let b: u64 = m.bits();
    let i: u64 = t.idx() as u64;
    assert((b | (1u64 << i)) & !(1u64 << i) == b) by (bit_vector)
        requires
            b & (1u64 << i) == 0,
            i < 64,
    ;
    ComponentMask::lemma_added(m, t, t);
    ComponentMask::lemma_removed(m.added(t), t, t);
    ComponentMask::lemma_bits_injective(m.added(t).removed(t), m);
}

/// Adding a kind twice is adding it once.
pub proof fn lemma_insert_idempotent(m: ComponentMask, t: ComponentType)
    ensures
        m.added(t).added(t) == m.added(t),
{
    lemma_idx_injective(t, t);
    let b: u64 = m.bits();
    let i: u64 = t.idx() as u64;
    assert((b | (1u64 << i)) | (1u64 << i) == b | (1u64 << i)) by (bit_vector);
    ComponentMask::lemma_added(m, t, t);
    ComponentMask::lemma_added(m.added(t), t, t);
    ComponentMask::lemma_bits_injective(m.added(t).added(t), m.added(t));
}

/// Every mask matches itself and matches the empty mask.
pub proof fn lemma_matches_self_and_empty(m: ComponentMask)
    ensures
        m.bits() & m.bits() == m.bits(),
        m.bits() & ComponentMask::empty().bits() == ComponentMask::empty().bits(),
{
    let b: u64 = m.bits();
    assert(b & b == b && b & 0 == 0) by (bit_vector);
    ComponentMask::lemma_empty(ComponentType::Position);
}

/// What the mask constructors do to the kinds a mask holds.
pub broadcast group group_mask_lemmas {
    ComponentMask::lemma_empty,
    ComponentMask::lemma_added,
    ComponentMask::lemma_removed,
}

proof fn lemma_zero_has_no_bit(i: u64)
    requires
        i < 64,
    ensures
        0u64 & (1u64 << i) == 0,
{
    assert(0u64 & (1u64 << i) == 0) by (bit_vector)
        requires
            i < 64,
    ;
}

proof fn lemma_or_bit(m: u64, i: u64)
    requires
        i < 13,
    ensures
        (m | (1u64 << i)) & (1u64 << i) != 0,
        m < 8192 ==> (m | (1u64 << i)) < 8192,
{
    assert((m | (1u64 << i)) & (1u64 << i) != 0 && (m < 8192 ==> (m | (1u64 << i)) < 8192))
        by (bit_vector)
        requires
            i < 13,
    ;
}

proof fn lemma_or_other_bit(m: u64, i: u64, j: u64)
    requires
        i < 64,
        j < 64,
        i != j,
    ensures
        ((m | (1u64 << i)) & (1u64 << j) != 0) == (m & (1u64 << j) != 0),
{
    assert(((m | (1u64 << i)) & (1u64 << j) != 0) == (m & (1u64 << j) != 0)) by (bit_vector)
        requires
            i < 64,
            j < 64,
            i != j,
    ;
}

proof fn lemma_clear_bit(m: u64, i: u64)
    requires
        i < 64,
    ensures
        (m & !(1u64 << i)) & (1u64 << i) == 0,
        m < 8192 ==> (m & !(1u64 << i)) < 8192,
{
    assert((m & !(1u64 << i)) & (1u64 << i) == 0 && (m < 8192 ==> (m & !(1u64 << i)) < 8192))
        by (bit_vector)
        requires
            i < 64,
    ;
}

proof fn lemma_clear_other_bit(m: u64, i: u64, j: u64)
    requires
        i < 64,
        j < 64,
        i != j,
    ensures
        ((m & !(1u64 << i)) & (1u64 << j) != 0) == (m & (1u64 << j) != 0),
{
    assert(((m & !(1u64 << i)) & (1u64 << j) != 0) == (m & (1u64 << j) != 0)) by (bit_vector)
        requires
            i < 64,
            j < 64,
            i != j,
    ;
}

/// For a word with only the kind bits set, `a & b == b` says exactly that
/// every kind bit of `b` is a bit of `a`.
proof fn lemma_kind_bits_subset(a: u64, b: u64)
    requires
        b < 8192,
    ensures
        (a & b == b) <==> (
        ((b & (1u64 << 0u64) != 0) ==> (a & (1u64 << 0u64) != 0)) &&
        ((b & (1u64 << 1u64) != 0) ==> (a & (1u64 << 1u64) != 0)) &&
        ((b & (1u64 << 2u64) != 0) ==> (a & (1u64 << 2u64) != 0)) &&
        ((b & (1u64 << 3u64) != 0) ==> (a & (1u64 << 3u64) != 0)) &&
        ((b & (1u64 << 4u64) != 0) ==> (a & (1u64 << 4u64) != 0)) &&
        ((b & (1u64 << 5u64) != 0) ==> (a & (1u64 << 5u64) != 0)) &&
        ((b & (1u64 << 6u64) != 0) ==> (a & (1u64 << 6u64) != 0)) &&
        ((b & (1u64 << 7u64) != 0) ==> (a & (1u64 << 7u64) != 0)) &&
        ((b & (1u64 << 8u64) != 0) ==> (a & (1u64 << 8u64) != 0)) &&
        ((b & (1u64 << 9u64) != 0) ==> (a & (1u64 << 9u64) != 0)) &&
        ((b & (1u64 << 10u64) != 0) ==> (a & (1u64 << 10u64) != 0)) &&
        ((b & (1u64 << 11u64) != 0) ==> (a & (1u64 << 11u64) != 0)) &&
        ((b & (1u64 << 12u64) != 0) ==> (a & (1u64 << 12u64) != 0))),
{
    assert((a & b == b) <==> (
        ((b & (1u64 << 0u64) != 0) ==> (a & (1u64 << 0u64) != 0)) &&
        ((b & (1u64 << 1u64) != 0) ==> (a & (1u64 << 1u64) != 0)) &&
        ((b & (1u64 << 2u64) != 0) ==> (a & (1u64 << 2u64) != 0)) &&
        ((b & (1u64 << 3u64) != 0) ==> (a & (1u64 << 3u64) != 0)) &&
        ((b & (1u64 << 4u64) != 0) ==> (a & (1u64 << 4u64) != 0)) &&
        ((b & (1u64 << 5u64) != 0) ==> (a & (1u64 << 5u64) != 0)) &&
        ((b & (1u64 << 6u64) != 0) ==> (a & (1u64 << 6u64) != 0)) &&
        ((b & (1u64 << 7u64) != 0) ==> (a & (1u64 << 7u64) != 0)) &&
        ((b & (1u64 << 8u64) != 0) ==> (a & (1u64 << 8u64) != 0)) &&
        ((b & (1u64 << 9u64) != 0) ==> (a & (1u64 << 9u64) != 0)) &&
        ((b & (1u64 << 10u64) != 0) ==> (a & (1u64 << 10u64) != 0)) &&
        ((b & (1u64 << 11u64) != 0) ==> (a & (1u64 << 11u64) != 0)) &&
        ((b & (1u64 << 12u64) != 0) ==> (a & (1u64 << 12u64) != 0)))) by (bit_vector)
        requires
            b < 8192,
    ;
}

/// Every bit of `b` that is a bit of `a & b == b` is a bit of `a`.
proof fn lemma_and_keeps_bit(a: u64, b: u64, i: u64)
    requires
        i < 64,
        a & b == b,
        b & (1u64 << i) != 0,
    ensures
        a & (1u64 << i) != 0,
{
    assert(a & (1u64 << i) != 0) by (bit_vector)
        requires
            i < 64,
            a & b == b,
            b & (1u64 << i) != 0,
    ;
}

/// When `b` has only kind bits and is not contained in `a`, a kind of `b`
/// that `a` lacks.
proof fn choose_missing_kind(a: u64, b: u64) -> (t: ComponentType)
    requires
        b < 8192,
        a & b != b,
    ensures
        has_bit(b, t.idx()),
        !has_bit(a, t.idx()),
{
    lemma_kind_bits_subset(a, b);
    if (b & (1u64 << 0u64) != 0) && (a & (1u64 << 0u64) == 0) {
        ComponentType::Position
    } else if (b & (1u64 << 1u64) != 0) && (a & (1u64 << 1u64) == 0) {
        ComponentType::Velocity
    } else if (b & (1u64 << 2u64) != 0) && (a & (1u64 << 2u64) == 0) {
        ComponentType::Vibe
    } else if (b & (1u64 << 3u64) != 0) && (a & (1u64 << 3u64) == 0) {
        ComponentType::Health
    } else if (b & (1u64 << 4u64) != 0) && (a & (1u64 << 4u64) == 0) {
        ComponentType::AgentAI
    } else if (b & (1u64 << 5u64) != 0) && (a & (1u64 << 5u64) == 0) {
        ComponentType::Renderable
    } else if (b & (1u64 << 6u64) != 0) && (a & (1u64 << 6u64) == 0) {
        ComponentType::Collider
    } else if (b & (1u64 << 7u64) != 0) && (a & (1u64 << 7u64) == 0) {
        ComponentType::Inventory
    } else if (b & (1u64 << 8u64) != 0) && (a & (1u64 << 8u64) == 0) {
        ComponentType::Pet
    } else if (b & (1u64 << 9u64) != 0) && (a & (1u64 << 9u64) == 0) {
        ComponentType::Dialogue
    } else if (b & (1u64 << 10u64) != 0) && (a & (1u64 << 10u64) == 0) {
        ComponentType::BiomeAffinity
    } else if (b & (1u64 << 11u64) != 0) && (a & (1u64 << 11u64) == 0) {
        ComponentType::Craftable
    } else {
        ComponentType::QuestTarget
    }
}

/// The `matches` relation on kind-only masks is inclusion of kinds.
proof fn lemma_subset_of_kinds(a: u64, b: u64)
    requires
        b < 8192,
    ensures
        (a & b == b) ==> forall|t: ComponentType| has_bit(b, t.idx()) ==> has_bit(a, t.idx()),
{
    if a & b == b {
        assert forall|t: ComponentType| has_bit(b, t.idx()) implies has_bit(a, t.idx()) by {
            lemma_idx_injective(t, t);
            lemma_and_keeps_bit(a, b, t.idx() as u64);
        }
    }
}

} // verus!
