//! An in-memory model of a WordprocessingML document and the assembler that
//! turns it into a consistent set of package parts.

pub mod body;
pub mod comments;
pub mod doc_props;
pub mod docx;
pub mod document;
pub mod laws;
pub mod numberings;
pub mod parts;
pub mod width_type;
pub mod xml;
