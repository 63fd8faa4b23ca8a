//! A small table manager for a multiplayer betting game.
//!
//! A table is opened by an initializer who stakes a fixed entry bet; further
//! players join by staking exactly the same amount, the pot accumulates one
//! stake per seated player, and the game starts once a quorum of three has
//! registered. Every operation is guarded by the table's lifecycle state.
//!
//! The module `model` gives the mathematical model of a table and of each
//! operation; `table` holds the executable manager, whose contracts say
//! that it follows the model exactly; `laws` proves the global properties
//! of the model (uniqueness of players, pot accounting, state guards).

mod laws;
mod model;
mod table;

pub use laws::lemma_bet_mismatch_rejected;
pub use laws::lemma_create_establishes_inv;
pub use laws::lemma_duplicate_registration_rejected;
pub use laws::lemma_ended_rejects_all;
pub use laws::lemma_full_table_rejects_registration;
pub use laws::lemma_playing_rejects_all;
pub use laws::lemma_quorum_gates_start;
pub use laws::lemma_register_preserves_inv;
pub use laws::lemma_registration_order;
pub use laws::lemma_start_preserves_inv;
pub use laws::lemma_state_only_forward;
pub use model::spec_create;
pub use model::spec_register;
pub use model::spec_start;
pub use model::spec_terminate;
pub use model::AccountId;
pub use model::MinimumPlayerReached;
pub use model::NewTableOpened;
pub use model::TableError;
pub use model::TableModel;
pub use model::MAX_PLAYERS;
pub use model::MIN_PLAYERS;
pub use model::STATE;
pub use table::Metasino;
