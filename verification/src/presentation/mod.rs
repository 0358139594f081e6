pub mod command_error;
