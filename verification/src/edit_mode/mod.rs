pub mod vi;
