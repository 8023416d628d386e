pub mod vegetables;
