pub use checker::CheckerPattern;
pub use gradient::GradientPattern;
pub use pattern::{Pattern, PatternType, TestPattern};
pub use plain::PlainPattern;
pub use ring::RingPattern;
pub use stripe::StripePattern;

pub mod checker;
pub mod gradient;
pub mod pattern;
pub mod plain;
pub mod ring;
pub mod stripe;
