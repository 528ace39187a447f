pub mod consumer_config;
