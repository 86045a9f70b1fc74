pub mod dev_config;

pub use dev_config::DevConfig;
