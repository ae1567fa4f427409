//! Decoder for the WWVB amplitude-modulated time code: pulse classification,
//! frame synchronisation, BCD field extraction and calendar arithmetic.
pub mod consts;
pub mod decoder;
pub mod rtc;
pub mod time;
pub mod wwvb;
