//! A terminal keyboard instrument: waveform generation, note and drum
//! resolution, recording, looping and melody pattern playback, with each
//! step stated and proved.

pub mod audio;
mod clock;
pub mod drums;
pub mod gemini_player;
pub mod instrument;
pub mod keyboard;
pub mod looper;
pub mod recorder;
pub mod reply_text;
