//! Resonance classes for memristive relations.
//!
//! Every class belongs to exactly one of four families: semantic, temporal,
//! spatial or emotional.

use vstd::prelude::*;

verus! {

/// Resonance classes for different kinds of semantic and temporal patterns.
#[derive(Debug, Clone, Copy, PartialEq, Eq, Structural)]
pub enum ResonanceClass {
    // Semantic resonance patterns
    Semantic,
    Conceptual,
    Associative,
    // Temporal resonance patterns
    Temporal,
    Sequential,
    Causal,
    // Spatial resonance patterns
    Spatial,
    Hierarchical,
    Network,
    // Emotional resonance patterns
    Emotional,
    Affective,
    Motivational,
}

/// The four families that resonance classes are grouped into.
#[derive(Debug, Clone, Copy, PartialEq, Eq, Structural)]
pub enum ResonanceCategory {
    Semantic,
    Temporal,
    Spatial,
    Emotional,
}

impl ResonanceClass {
    /// The family this class belongs to.
    pub open spec fn category(self) -> ResonanceCategory {
        match self {
            ResonanceClass::Semantic | ResonanceClass::Conceptual | ResonanceClass::Associative => {
                ResonanceCategory::Semantic
            },
            ResonanceClass::Temporal | ResonanceClass::Sequential | ResonanceClass::Causal => {
                ResonanceCategory::Temporal
            },
            ResonanceClass::Spatial | ResonanceClass::Hierarchical | ResonanceClass::Network => {
                ResonanceCategory::Spatial
            },
            ResonanceClass::Emotional | ResonanceClass::Affective | ResonanceClass::Motivational => {
                ResonanceCategory::Emotional
            },
        }
    }

    /// The default resonance class.
    pub fn default() -> (rc: Self)
        ensures
            rc == ResonanceClass::Semantic,
    {
        ResonanceClass::Semantic
    }

    /// Whether this is a semantic resonance class.
    pub fn is_semantic(&self) -> (b: bool)
        ensures
            b == (self.category() == ResonanceCategory::Semantic),
    {
        match self {
            ResonanceClass::Semantic | ResonanceClass::Conceptual | ResonanceClass::Associative => true,
            _ => false,
        }
    }

    /// Whether this is a temporal resonance class.
    pub fn is_temporal(&self) -> (b: bool)
        ensures
            b == (self.category() == ResonanceCategory::Temporal),
    {
        match self {
            ResonanceClass::Temporal | ResonanceClass::Sequential | ResonanceClass::Causal => true,
            _ => false,
        }
    }

    /// Whether this is a spatial resonance class.
    pub fn is_spatial(&self) -> (b: bool)
        ensures
            b == (self.category() == ResonanceCategory::Spatial),
    {
        match self {
            ResonanceClass::Spatial | ResonanceClass::Hierarchical | ResonanceClass::Network => true,
            _ => false,
        }
    }

    /// Whether this is an emotional resonance class.
    pub fn is_emotional(&self) -> (b: bool)
        ensures
            b == (self.category() == ResonanceCategory::Emotional),
    {
        match self {
            ResonanceClass::Emotional | ResonanceClass::Affective | ResonanceClass::Motivational => {
                true
            },
            _ => false,
        }
    }
}

impl Default for ResonanceClass {
    fn default() -> (rc: Self)
        ensures
            rc == ResonanceClass::Semantic,
    {
        ResonanceClass::Semantic
    }
}

/// Every resonance class lies in exactly one family: one of the four family
/// tests holds of it, and only one.
pub proof fn lemma_category_exclusive(rc: ResonanceClass)
    ensures
        rc.category() == ResonanceCategory::Semantic || rc.category() == ResonanceCategory::Temporal
            || rc.category() == ResonanceCategory::Spatial || rc.category()
            == ResonanceCategory::Emotional,
        (rc.category() == ResonanceCategory::Semantic) as int + (rc.category()
            == ResonanceCategory::Temporal) as int + (rc.category() == ResonanceCategory::Spatial) as int
            + (rc.category() == ResonanceCategory::Emotional) as int == 1,
{
}

/// Each family holds exactly three classes: a class is in a family if and only
/// if it is one of that family's three members.
pub proof fn lemma_category_members(rc: ResonanceClass)
    ensures
        rc.category() == ResonanceCategory::Semantic <==> (rc == ResonanceClass::Semantic || rc
            == ResonanceClass::Conceptual || rc == ResonanceClass::Associative),
        rc.category() == ResonanceCategory::Temporal <==> (rc == ResonanceClass::Temporal || rc
            == ResonanceClass::Sequential || rc == ResonanceClass::Causal),
        rc.category() == ResonanceCategory::Spatial <==> (rc == ResonanceClass::Spatial || rc
            == ResonanceClass::Hierarchical || rc == ResonanceClass::Network),
        rc.category() == ResonanceCategory::Emotional <==> (rc == ResonanceClass::Emotional || rc
            == ResonanceClass::Affective || rc == ResonanceClass::Motivational),
{
}

} // verus!
