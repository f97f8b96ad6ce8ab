//! Features of the railway map and how their symbols configure them.

pub mod border;
pub mod dot;
pub mod guide;
pub mod track;
