pub mod clip_buffer;
