pub mod authenticate;
pub mod login;
pub mod register;
pub mod tenant;
pub mod change_password;
pub mod create_user;
pub mod bootstrap;
