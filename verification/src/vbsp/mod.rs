//! The Source engine `VBSP` reader.

pub mod bspfile;
pub mod data;
pub mod leaves;
pub mod lighting;
pub mod lump_type;
pub mod visdata;
pub mod property;
