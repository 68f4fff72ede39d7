pub mod app_error;
pub mod intelligent_house_error;
