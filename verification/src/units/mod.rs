pub mod unit_calculator;
pub mod name_generator;
pub mod portrait_generator;

pub use unit_calculator::UnitCalculator;
pub use name_generator::NameGenerator;
pub use portrait_generator::{PortraitGenerator, ProfessionEnum};
