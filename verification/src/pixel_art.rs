pub mod adv_mame;
pub mod eagle;
pub mod sai;
pub mod util;
pub mod hqx;
