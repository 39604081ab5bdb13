pub mod bus_health;
pub mod http_health;
