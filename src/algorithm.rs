pub mod fixed_window;
pub mod leaky_bucket;
pub mod sliding_window;
