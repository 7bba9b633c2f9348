pub mod shared_frame;
