pub mod m3u;
