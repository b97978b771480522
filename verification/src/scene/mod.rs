pub mod unlit;
