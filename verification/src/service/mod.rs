//! The device side: the RPC client and the editor task description.

pub mod reconciler;
pub mod vscode_tasks;
pub mod shelly_rest_api;
