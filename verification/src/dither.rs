pub mod ordered;
pub mod diffusion;
pub mod quant;
pub mod riemersma;
