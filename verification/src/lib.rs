pub mod decode;
pub mod errors;
pub mod laws;
pub mod model;
pub mod yaml;

pub use errors::{IoError, ParseError};
pub use model::{
    Channel, Helm, Image, ImageSetConfig, IncludeChannel, Mirror, Operator, Package, Platform,
};
