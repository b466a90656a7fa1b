pub mod accept_buy_request;
pub mod accept_confirmity_report;
pub mod accept_report;
pub mod cancel_for_sale;
pub mod issue_car_report;
pub mod issue_confirmity_report;
pub mod register_car;
pub mod register_user;
pub mod reject_buy_request;
pub mod request_buy;
pub mod set_for_sale;
pub mod transfer_car;
pub mod verify_user;
