//! The two-class probability model and the class decision.
//!
//! Probabilities are held in millionths, so that they stay in integer
//! arithmetic: a pair (p0, p1) stands for the distribution
//! (p0 / 1_000_000, p1 / 1_000_000). The pair always sums to exactly one
//! million, so the served distribution sums to exactly one and each
//! component lies in [0, 1].

use vstd::prelude::*;

use crate::config::MICROS_PER_UNIT;

verus! {

/// The two classes, in index order: 0 is uninfected, 1 is parasitized.
#[derive(Clone, Copy, Debug, PartialEq, Eq, Structural)]
pub enum ClassLabel {
    /// Index 0: no parasite found.
    Uninfected,
    /// Index 1: the cell is parasitized.
    Parasitized,
}

impl ClassLabel {
    /// The index of the class: 0 for uninfected, 1 for parasitized.
    pub open spec fn spec_index(&self) -> int {
        match self {
            ClassLabel::Uninfected => 0,
            ClassLabel::Parasitized => 1,
        }
    }

    /// The name of the class, as served in the response body.
    pub open spec fn spec_text(&self) -> Seq<char> {
        match self {
            ClassLabel::Uninfected => "Uninfected"@,
            ClassLabel::Parasitized => "Parasitized"@,
        }
    }

    /// The index of the class: 0 for uninfected, 1 for parasitized.
    pub fn index(&self) -> (r: u8)
        ensures
            r == self.spec_index(),
    {
        match self {
            ClassLabel::Uninfected => 0,
            ClassLabel::Parasitized => 1,
        }
    }

    /// The name of the class, as served in the response body.
    pub fn text(&self) -> (r: &'static str)
        ensures
            r@ == self.spec_text(),
    {
        match self {
            ClassLabel::Uninfected => "Uninfected",
            ClassLabel::Parasitized => "Parasitized",
        }
    }

    /// The class a dataset label stands for: 1 marks a parasitized cell,
    /// any other value an uninfected one.
    pub fn from_dataset_label(label: u8) -> (r: ClassLabel)
        ensures
            r == ClassLabel::Parasitized <==> label == 1,
    {
        if label == 1 {
            ClassLabel::Parasitized
        } else {
            ClassLabel::Uninfected
        }
    }
}

/// One labeled sample of the cell-image dataset: where its bytes live and
/// which class it belongs to.
#[derive(Clone, Debug)]
pub struct MalariaItem {
    /// Path of the image file.
    pub image_path: String,
    /// Its class index: 1 parasitized, 0 uninfected.
    pub label: u8,
}

impl MalariaItem {
    /// The class this sample is labeled with.
    pub fn class(&self) -> (r: ClassLabel)
        ensures
            r == ClassLabel::Parasitized <==> self.label == 1,
    {
        ClassLabel::from_dataset_label(self.label)
    }
}

/// A two-class probability distribution in millionths. The invariant is
/// exact: the components sum to one million, so each lies in [0, 1] and
/// the distribution sums to exactly one.
#[derive(Clone, Copy, Debug, PartialEq, Eq, Structural)]
pub struct ProbabilityPair {
    /// Probability of index 0 (uninfected), in millionths.
    pub p0_micros: u32,
    /// Probability of index 1 (parasitized), in millionths.
    pub p1_micros: u32,
}

/// A probability in millionths, clamped into [0, 1].
pub open spec fn clamped_to_unit(m: int) -> int {
    if m <= MICROS_PER_UNIT {
        m
    } else {
        MICROS_PER_UNIT as int
    }
}

impl ProbabilityPair {
    /// The exact normalization invariant.
    pub open spec fn wf(&self) -> bool {
        self.p0_micros + self.p1_micros == MICROS_PER_UNIT
    }

    /// The distribution built from the probability of index 1 alone:
    /// index 1 is clamped into range and index 0 takes the exact
    /// remainder.
    pub open spec fn spec_from_index1(m: int) -> ProbabilityPair
        recommends
            0 <= m,
    {
        ProbabilityPair {
            p0_micros: (MICROS_PER_UNIT - clamped_to_unit(m)) as u32,
            p1_micros: clamped_to_unit(m) as u32,
        }
    }

    /// Builds the distribution from the probability of index 1, clamping
    /// it into range; index 0 takes the exact remainder, so the pair
    /// always sums to one million.
    pub fn from_index1_micros(p1_micros: u32) -> (r: ProbabilityPair)
        ensures
            r == Self::spec_from_index1(p1_micros as int),
            r.wf(),
            p1_micros <= MICROS_PER_UNIT ==> r.p1_micros == p1_micros,
            p1_micros > MICROS_PER_UNIT ==> r.p1_micros == MICROS_PER_UNIT,
            r.p0_micros == MICROS_PER_UNIT - r.p1_micros,
    {
        let p1 = if p1_micros <= MICROS_PER_UNIT {
            p1_micros
        } else {
            MICROS_PER_UNIT
        };
        ProbabilityPair { p0_micros: MICROS_PER_UNIT - p1, p1_micros: p1 }
    }

    /// Both components lie in [0, 1] and the distribution sums to exactly
    /// one: in millionths, each component is at most one million and the
    /// two add up to one million precisely.
    pub proof fn lemma_normalized(&self)
        requires
            self.wf(),
        ensures
            self.p0_micros + self.p1_micros == MICROS_PER_UNIT,
            self.p0_micros <= MICROS_PER_UNIT,
            self.p1_micros <= MICROS_PER_UNIT,
    {
    }
}

/// The class the distribution decides for: index 1 exactly when its
/// probability is at least index 0's, so an exact tie goes to index 1.
pub open spec fn spec_decided_class(probs: ProbabilityPair) -> ClassLabel {
    if probs.p1_micros >= probs.p0_micros {
        ClassLabel::Parasitized
    } else {
        ClassLabel::Uninfected
    }
}

/// The class decision: the index of the larger probability, and on an
/// exact tie index 1 — the comparison is `>=` on index 1's probability,
/// explicitly and deterministically.
pub fn decide_class(probs: &ProbabilityPair) -> (r: ClassLabel)
    ensures
        r == spec_decided_class(*probs),
        r == ClassLabel::Parasitized <==> probs.p1_micros >= probs.p0_micros,
        r == ClassLabel::Uninfected <==> probs.p1_micros < probs.p0_micros,
{
    if probs.p1_micros >= probs.p0_micros {
        ClassLabel::Parasitized
    } else {
        ClassLabel::Uninfected
    }
}

} // verus!
