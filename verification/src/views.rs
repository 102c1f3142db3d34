//! Views: containers that own component nodes and lay them out.

pub mod align;
pub mod divider;
pub mod flatten;
pub mod layout;
pub mod translate;
pub mod view;
