//! Client-side logic for a media-gallery service: request planning,
//! response classification, byte ranges, download progress and the
//! data records the service exchanges.

mod api;
mod client;
mod error;
mod model;
mod progress;
mod text;

pub use api::{
    check_status, classify_status, endpoint_method, endpoint_path, lemma_not_found_names_file,
    lemma_range_header_shape, lemma_unauthorized_everywhere, missing_text, occurs_in, range_header,
    range_value, status_class, Endpoint, Method, StatusClass, ACCESS_TOKEN_HEADER,
};
pub use client::{trim_slashes, ZeroGalleryClient};
pub use error::{error_text, Error, Result};
pub use model::{
    epoch_time_of, pow1024, round_half_even, size_text, unit_from, unit_name, AlbumInfo,
    CreateAlbumInfo, DataInfo, EpochTime, VideoHeaders,
};
pub use progress::{
    advance, chunks_len, lemma_progress_bounded, lemma_progress_counts_chunks, progress_after,
    report_of, total_hint, DownloadProgress,
};
pub use text::{
    dec_digits, dec_int, decimal_i64, decimal_u64, digits_value, parse_u64, parsed_u64,
};
