pub mod create_dispute;
pub mod resolve_dispute;
pub mod submit_evidence;
