pub mod session_service;
