//! Small verified library distilled from a set of standalone language
//! demonstrations: rectangle geometry reached through nested modules,
//! a transparent single-field box, an IP-address enum with first-match
//! classification, and an integer zip/map/filter/sum pipeline.

pub mod ip;
pub mod mybox;
pub mod paths;
pub mod pipeline;
pub mod shapes;
