pub mod iptv_org;
pub mod models;
pub mod subtitles;
