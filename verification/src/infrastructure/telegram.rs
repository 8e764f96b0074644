pub mod formatters;
