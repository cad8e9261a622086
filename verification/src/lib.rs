pub mod image;
pub mod ndim;
pub mod bits;
pub mod grid;
pub mod util;
pub mod pixel_art;
pub mod regex_py;
pub mod scale;
pub mod dither;
pub mod fill_alpha;
pub mod fragment_blur;
pub mod palette;
pub mod snap;
pub mod threshold;
