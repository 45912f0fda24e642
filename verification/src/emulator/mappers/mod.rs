//! Cartridge boards, in iNES mapper number order.
pub mod nrom;
pub mod mmc1;
pub mod uxrom;
pub mod cnrom;
pub mod mmc3;
pub mod axrom;
pub mod color_dreams;
pub mod cartridge;
pub mod banking;

pub use self::axrom::AXROM;
pub use self::cartridge::Cartridge;
pub use self::cnrom::CNROM;
pub use self::color_dreams::ColorDreams;
pub use self::mmc1::MMC1;
pub use self::mmc3::MMC3;
pub use self::nrom::NROM;
pub use self::uxrom::UXROM;
