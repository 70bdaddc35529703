//! What the library does for the host's storage: the shape of the
//! repository, and the computing that goes with reading and writing rows.

pub mod repo;
pub mod rows;
