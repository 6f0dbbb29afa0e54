//! A web gateway over a file-listing server: browse paths are normalised,
//! raw listing lines become structured entries, and the listing is rendered
//! as a navigable page; downloads get an attachment name and header.
pub mod download;
pub mod listing;
pub mod path;
pub mod render;
pub mod text;
