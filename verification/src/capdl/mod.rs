//! The data model of a capability-distribution specification: kernel
//! objects, the capabilities among them, and the content of their frames.

pub mod cap;
pub mod cap_table;
pub mod cram;
pub mod deflate;
pub mod embedded_frames;
pub mod error;
pub mod fill;
pub mod frame_init;
pub mod indirect;
pub mod inspect;
pub mod inspect_archived;
pub mod object;
pub mod object_name;
pub mod spec;
pub mod traverse;
pub mod traverse_data;
pub mod traverse_embedded;
pub mod traverse_more;
pub mod when_sel4;
