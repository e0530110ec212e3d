use vstd::prelude::*;

use crate::nucl::Nucl;
use crate::strands::Strand;

verus! {

/// Whether a nucleotide is the end of a domain, a strand or a cross-over, and which end.
#[derive(Debug, Clone, Copy, PartialEq, Eq, Structural)]
pub enum Extremity {
    No,
    Prime3,
    Prime5,
}

impl Extremity {
    pub fn is_3prime(&self) -> (r: bool)
        ensures
            r == (*self == Extremity::Prime3),
    {
        match self {
            Extremity::Prime3 => true,
            _ => false,
        }
    }

    pub fn is_5prime(&self) -> (r: bool)
        ensures
            r == (*self == Extremity::Prime5),
    {
        match self {
            Extremity::Prime5 => true,
            _ => false,
        }
    }

    pub fn is_end(&self) -> (r: bool)
        ensures
            r == (*self != Extremity::No),
    {
        match self {
            Extremity::No => false,
            _ => true,
        }
    }

    /// `None` for no end, `Some(true)` for a 3' end and `Some(false)` for a 5' end.
    pub fn to_opt(&self) -> (r: Option<bool>)
        ensures
            *self == Extremity::No ==> r == None::<bool>,
            *self == Extremity::Prime3 ==> r == Some(true),
            *self == Extremity::Prime5 ==> r == Some(false),
    {
        match self {
            Extremity::No => None,
            Extremity::Prime3 => Some(true),
            Extremity::Prime5 => Some(false),
        }
    }
}

/// What is needed to make a cross-over between two nucleotides.
#[derive(Debug)]
pub struct XoverInfo {
    /// The source strand data
    pub source: Strand,
    /// The target strand data
    pub target: Strand,
    /// The id of the source strand
    pub source_id: usize,
    /// The id of the target strand
    pub target_id: usize,
    /// The source nucleotide
    pub source_nucl: Nucl,
    /// The target nucleotide
    pub target_nucl: Nucl,
    /// Identifier of the design on which to do the cross-over
    pub design_id: usize,
    /// The target nucl Strand extremity status
    pub target_strand_end: Extremity,
    /// The source nucl Strand extremity status
    pub source_strand_end: Extremity,
}

} // verus!
