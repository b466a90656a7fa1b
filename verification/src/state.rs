pub mod buy_request;
pub mod car;
pub mod car_report;
pub mod confirmity_report;
pub mod user;
