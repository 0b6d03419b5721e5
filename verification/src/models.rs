pub mod fetch;
pub mod generic;
pub mod night;
pub mod paginator;
pub mod run;
