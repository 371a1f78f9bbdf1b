pub mod error;
pub mod clip;
pub mod frames;
pub mod resample;
pub mod capture;
pub mod playback;
pub mod import;
pub mod export;
