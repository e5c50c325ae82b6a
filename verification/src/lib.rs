//! Application layer of the Winx KVM: the decisions behind pairing,
//! transport, clipboard sync, input focus, monitor layouts and workspaces,
//! each stated as a contract and proved.

pub mod error;
pub mod events;
pub mod ids;
pub mod bus;
pub mod uuid_text;
pub mod time_text;
pub mod crypto;
pub mod identity_core;
pub mod discovery_core;
pub mod pairing;
pub mod transport_core;
pub mod clipboard_sync;
pub mod mouse_coalesce;
pub mod input_wire;
pub mod input_focus;
pub mod input_session;
pub mod local_move;
pub mod layout;
pub mod layout_sync;
pub mod lab_core;
pub mod workspace;
pub mod workspace_wire;
pub mod workspace_service;
