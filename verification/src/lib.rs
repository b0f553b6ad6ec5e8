//! Session protocol for a MaxSAT preprocessing engine.
//!
//! The library models the client side of a preprocessing session: literals
//! and their signed wire encoding, the streaming construction of a weighted
//! instance, the read-back of the simplified instance from the engine's flat
//! clause/weight table, and the expansion of a solver assignment back onto
//! the original variables. The engine itself is an external collaborator;
//! every function here is a pure computation on plain values.

mod extract;
mod init;
mod lit;
mod options;
mod reconstruct;
mod session;

pub use lit::codes_legal;
pub use lit::decode_clause;
pub use lit::decoded;
pub use lit::decoded_clause;
pub use lit::legal_code;
pub use lit::lemma_decode_encode;
pub use lit::lemma_decoded_clause_index;
pub use lit::lemma_decoded_clause_step;
pub use lit::lemma_encode_decode;
pub use lit::Lit;
pub use lit::MAX_VAR;

pub use init::clause_lit_tokens;
pub use init::clause_tokens;
pub use init::clause_wf;
pub use init::clauses_wf;
pub use init::hard_tokens;
pub use init::init_tokens;
pub use init::lemma_clause_lit_tokens_step;
pub use init::lemma_hard_tokens_step;
pub use init::lemma_obj_weight_sum_nonneg;
pub use init::lemma_obj_weight_sum_prefix;
pub use init::lemma_obj_weight_sum_step;
pub use init::lemma_objective_tokens_step;
pub use init::lemma_soft_tokens_step;
pub use init::lemma_total_weight_prefix;
pub use init::lemma_total_weight_step;
pub use init::lit_token;
pub use init::obj_weight_sum;
pub use init::objective_tokens;
pub use init::objective_wf;
pub use init::objectives_wf;
pub use init::soft_clause_tokens;
pub use init::soft_tokens;
pub use init::total_weight;
pub use init::zero_weights;
pub use init::InitCommands;
pub use init::InitToken;
pub use init::SoftClause;

pub use session::MaxPre;

pub use extract::extract_hards;
pub use extract::extract_softs_at;
pub use extract::is_extraction;
pub use extract::lemma_classification_consistent;
pub use extract::lemma_extract_hards_step;
pub use extract::lemma_extract_softs_at_step;
pub use extract::lemma_extraction_idempotent;
pub use extract::lemma_hard_membership;
pub use extract::lemma_soft_membership;
pub use extract::row_wf;
pub use extract::soft_list_len;
pub use extract::soft_lists_equal;
pub use extract::softs_list_matches;
pub use extract::table_wf;
pub use extract::weights_all_top;
pub use extract::PreproClause;

pub use reconstruct::assigns;
pub use reconstruct::lemma_reconstruction_total;

pub use options::knob_cmds;
pub use options::option_cmds;
pub use options::OptionCmd;
pub use options::Options;
