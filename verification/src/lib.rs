pub mod bitmap;
pub mod generate;
pub mod geometry;
pub mod model;
pub mod orchestrate;
pub mod paths;
