pub mod accept_job;
pub mod approve_work;
pub mod cancel_job;
pub mod dispute_job;
pub mod post_job;
pub mod refund_expired;
pub mod submit_work;
