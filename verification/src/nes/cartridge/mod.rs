pub mod mapper001_mmc1;
pub mod mapper003_cn_rom;
pub mod rom;
