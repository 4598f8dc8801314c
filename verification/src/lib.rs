use vstd::prelude::*;

pub mod cell;
pub mod columns;
pub mod compression;
pub mod convert;
pub mod errors;
pub mod pipeline;
pub mod schema;
pub mod writer;

use crate::compression::{codec_from_name, codec_of, name_view, Codec};

verus! {

/// The parameters of one export operation: where the query runs, what it is,
/// where the output file goes, and which compression codec to apply.
pub struct Params {
    pub name_server: String,
    pub query: Option<String>,
    pub path_file: Option<String>,
    pub file_parquet: String,
    pub user: Option<String>,
    pub secret: Option<String>,
    pub parameters: Vec<String>,
    pub compression: Option<String>,
}

impl Params {
    /// The codec this export's compression option selects: the seven
    /// recognized names map to themselves ignoring ASCII case; any other
    /// value, and absence, selects Zstd.
    pub fn select_compression(&self) -> (r: Codec)
        ensures
            r == codec_of(name_view(self.compression)),
    {
        match &self.compression {
            Option::None => Codec::Zstd,
            Option::Some(s) => codec_from_name(s.as_str()),
        }
    }
}

} // verus!
