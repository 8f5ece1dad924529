pub mod api_factory;
pub mod container_config;
pub mod lifecycle;
pub mod metadata;
pub mod services;
pub mod string_map;
