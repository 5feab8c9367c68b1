//! Indexes files of segmented binary sensor logs: decodes each segment's
//! lead-in and metadata, checks the objects against the one layout this
//! producer writes, gathers the file and stream metadata, and reads the
//! timestamp, index and header channels into correlated frame records.

pub mod aggregator;
pub mod channels;
pub mod correlator;
pub mod decimal;
pub mod object_path;
pub mod output;
pub mod tdms_datatype;
pub mod tdms_lead_in;
pub mod tdms_metadata;
pub mod tdms_object;
pub mod tdms_parse_error;
pub mod tdms_segment;
pub mod traversal;
pub mod util;
