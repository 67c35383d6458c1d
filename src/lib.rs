//! Client side of the agent-to-server calls: registration and the upload of
//! monitoring data as a multipart form.

mod agent;
mod multipart;

pub use agent::{agent_data_form, agent_data_url, register};
pub use multipart::{form_fields, part_body, part_file_name};
