pub mod audio;
pub mod duplicates;
pub mod equalizer;
pub mod error;
pub mod models;
pub mod playlist_io;
pub mod stage;
pub mod text;
