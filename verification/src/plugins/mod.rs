pub mod functions;
pub mod post_process;
pub mod structs;
