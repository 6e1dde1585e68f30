//! The three elements and the cycle in which each defeats the next.
use vstd::prelude::*;

verus! {

/// An elemental affinity. The elements form one cycle: land defeats sea, sea
/// defeats sky, sky defeats land.
#[derive(Clone, Copy, Debug, PartialEq, Eq, Structural)]
pub enum El {
    LAND,
    SEA,
    SKY,
}

impl Default for El {
    fn default() -> (e: El)
        ensures
            e == El::LAND,
    {
        El::LAND
    }
}

impl El {
    /// The element that `self` defeats.
    pub open spec fn prey(self) -> El {
        match self {
            El::LAND => El::SEA,
            El::SEA => El::SKY,
            El::SKY => El::LAND,
        }
    }

    /// The element that defeats `self`.
    pub open spec fn bane(self) -> El {
        match self {
            El::LAND => El::SKY,
            El::SEA => El::LAND,
            El::SKY => El::SEA,
        }
    }

    /// Whether `self` defeats `other`.
    pub open spec fn beats(self, other: El) -> bool {
        other == self.prey()
    }

    /// Whether `self` defeats `other` in the cycle. No element defeats itself.
    pub fn is_weak(self, other: El) -> (weak: bool)
        ensures
            weak == self.beats(other),
    {
        match (self, other) {
            (El::LAND, El::SEA) => true,
            (El::SEA, El::SKY) => true,
            (El::SKY, El::LAND) => true,
            _ => false,
        }
    }

    /// The alchemical sign of the element.
    pub fn to_string(&self) -> (sign: &'static str)
        ensures
            sign@ == self.sign(),
    {
        match self {
            El::LAND => "🜃",
            El::SKY => "🜁",
            El::SEA => "🜄",
        }
    }

    /// The text that stands for the element: earth for land, air for sky,
    /// water for sea.
    pub open spec fn sign(self) -> Seq<char> {
        match self {
            El::LAND => "🜃"@,
            El::SKY => "🜁"@,
            El::SEA => "🜄"@,
        }
    }

    /// No element defeats itself.
    pub proof fn lemma_never_beats_itself(e: El)
        ensures
            !e.beats(e),
    {
    }

    /// Each element defeats exactly one element, which is another one, and is
    /// defeated by exactly one, which is another one again.
    pub proof fn lemma_one_prey_one_bane(e: El)
        ensures
            forall|o: El| e.beats(o) <==> o == e.prey(),
            forall|o: El| o.beats(e) <==> o == e.bane(),
            e.prey() != e,
            e.bane() != e,
            e.prey() != e.bane(),
    {
    }

    /// The relation is a cycle and not symmetric: where one element defeats
    /// another, the other does not defeat it, and three steps lead back.
    pub proof fn lemma_cycle(a: El, b: El)
        ensures
            a.beats(b) ==> !b.beats(a),
            a.prey().prey().prey() == a,
            a != b ==> (a.beats(b) || b.beats(a)),
    {
    }
}

} // verus!
