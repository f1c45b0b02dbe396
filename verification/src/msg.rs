//! Wire codecs: pure functions that pack and unpack ADS-B extended
//! squitter frames and Network Remote-ID frames.

pub mod adsb;
pub mod netrid;
