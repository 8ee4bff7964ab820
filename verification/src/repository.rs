pub mod company_repository;
