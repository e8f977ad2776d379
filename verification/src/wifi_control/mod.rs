pub mod controller;
pub mod ip_text;
pub mod bounded_text;
pub mod station_link;
pub mod web_server;
