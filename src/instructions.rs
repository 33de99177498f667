pub mod cancel_swap;
pub mod execute_swap;
pub mod initialize_swap;
