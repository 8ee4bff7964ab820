pub mod company;
