pub mod audio;
pub mod image;
pub mod video;
pub mod outcome;
