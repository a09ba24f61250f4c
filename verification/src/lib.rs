//! Create a hosted repository and push a freshly scaffolded local one to it.
//!
//! The crate verifies the decision logic of that workflow: the strings it
//! composes (seed file content, API endpoint, request body, error messages)
//! and the linear state machine that sequences the side-effecting steps.
//! The side effects themselves (filesystem, subprocesses, HTTP) are performed
//! by an unverified driver that follows the machine's instructions.

mod error;
mod machine;
mod request;
mod scaffold;
mod text;

pub use machine::action_of;
pub use machine::awaits_vcs;
pub use machine::initial_state;
pub use machine::is_success_status;
pub use machine::lemma_missing_credential_inert;
pub use machine::lemma_no_back_edges;
pub use machine::lemma_success_run;
pub use machine::lemma_terminal_states_inert;
pub use machine::lemma_vcs_failure_halts;
pub use machine::next_state;
pub use machine::opt_action_view;
pub use machine::rank;
pub use machine::vcs_command_display;
pub use machine::Action;
pub use machine::ActionModel;
pub use machine::Event;
pub use machine::EventModel;
pub use machine::Options;
pub use machine::OptionsModel;
pub use machine::Runner;
pub use machine::RunnerModel;
pub use machine::State;
pub use machine::StateModel;

pub use error::lemma_api_rejection_message;
pub use error::lemma_vcs_failure_message;
pub use error::message_spec;
pub use error::Error;
pub use error::ErrorModel;

pub use request::accept_header;
pub use request::auth_header_spec;
pub use request::auth_header_value;
pub use request::creation_endpoint;
pub use request::creation_endpoint_spec;
pub use request::escaped;
pub use request::escaped_char;
pub use request::hex_digit;
pub use request::json_escape;
pub use request::org_endpoint;
pub use request::request_body;
pub use request::request_body_spec;
pub use request::user_agent;
pub use request::user_endpoint;

pub use scaffold::seed_content;
pub use scaffold::seed_content_spec;
pub use text::contains_seq;
pub use text::dec_rep;
pub use text::digit_char;
pub use text::lemma_contains_at;
pub use text::u16_to_string;
