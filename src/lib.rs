//! Orchestration of a group deployment: a membership registry is created
//! first, then a multisig bound to it, and finally every member's list of
//! multisig wallets is extended and the registry is handed over to the
//! multisig.
pub mod contract;
pub mod msg;
pub mod reply_data;
pub mod state;

pub use contract::{
    execute, execute_deployer, get_list_wallet, handle_instantiate_cw3_flex_multisig,
    handle_instantiate_cw4_reply, multisig_created, query, registry_created, reply,
};
pub use msg::{
    Action, ContractError, DeployMsg, ExecuteMsg, GetListOfWalletResponse, Member, QueryMsg, Step,
    MULTISIG_CODE_ID, REGISTRY_CODE_ID,
};
pub use state::{Store, WalletIndex};
