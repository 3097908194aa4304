pub mod clock;
pub mod config;
pub mod config_error;
pub mod config_laws;
pub mod console_laws;
pub mod duplicate;
pub mod home_laws;
pub mod paths;
pub mod protocol;
pub mod reconnect;
pub mod relay_server;
pub mod relay_state;
pub mod runtime;
pub mod segment_order;
pub mod seqs;
pub mod sorting;
pub mod store_laws;
pub mod string_map;
pub mod text;
pub mod text_laws;
pub mod transport;
pub mod types;
pub mod view_laws;
