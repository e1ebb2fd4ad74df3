//! The filtering core of a browsable command reference: a catalog of entries
//! grouped into named categories, the search and selection state that narrows
//! it, and the short-lived "copied" indicator of a displayed entry.

pub mod ckad_data;
pub mod ckad_listing;
pub mod copy_feedback;
pub mod filter;
pub mod selection;
pub mod text;
