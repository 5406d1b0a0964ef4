//! Decoding of the metadata of TIFF-based raw image files: the file header,
//! the tree of image file directories and their typed entries.

pub mod byte_order;
pub mod byte_orders;
pub mod format;
pub mod field_type;
pub mod tag;
pub mod source;
pub mod ifd_entry;
pub mod ifd;
pub mod header;
