//! Verified core of a cadastral-survey exchange-format reader: a streaming
//! XML state machine that fills four identifier-keyed tables, a topology
//! resolver that turns a surface identifier into rings of coordinates, and a
//! traversal of the nested zip distribution.

pub mod data;
pub mod events;
pub mod parser;
pub mod text;
pub mod zip;

pub use data::Fude;
pub use data::FudeAttributes;
pub use data::ParsedData;
pub use data::Point;
pub use data::PointRef;
pub use data::ResolveError;
pub use data::Segment;
pub use parser::Error;
pub use parser::MojxmlParser;
pub use zip::ZipError;
pub use zip::ZipPackage;
pub use zip::ZipPackageIter;
