//! The data kept by the caching actors: the sorted mailing lists, the patch
//! feeds of each list, and recently read patches.

pub mod feed;
pub mod mailing_list;
pub mod paging;
pub mod patch;
pub mod str_map;
