pub mod components;
pub mod post_processes;
pub mod render_resource;
