use vstd::prelude::*;

use crate::tdms_lead_in::LeadIn;
use crate::tdms_metadata::Metadata;

verus! {

/// A segment as it stands in a file: its header, its metadata, the size of
/// its raw data and where it starts.
pub struct TdmsSegment {
    pub tdms_lead_in: LeadIn,
    pub tdms_metadata: Metadata,
    pub data_size: u64,
    pub absolute_pos: u64,
}

} // verus!
