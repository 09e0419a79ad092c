//! Resolution of the host's network state from the network-management
//! service: the current link, the visible wireless networks, saved profiles,
//! connection settings, and a debounced change feed. Every bus read is named
//! by a walk and answered by the caller, so the decisions here are plain
//! functions of the replies.
use vstd::prelude::*;

pub mod bus;
pub mod connect;
pub mod debounce;
pub mod error;
pub mod models;
pub mod network_stats;
pub mod network_utils;
pub mod ranking;
pub mod resolver;
pub mod saved;
pub mod scan;
pub mod security;
pub mod text;

pub use crate::bus::{Query, Reply};
pub use crate::connect::{activation_request, connection_settings, ActivationRequest, Setting, SettingsPayload};
pub use crate::debounce::{Debouncer, DEBOUNCE_WINDOW_MS};
pub use crate::error::{NetworkError, Result as NetworkResult};
pub use crate::models::{NetworkInfo, WiFiConnectionConfig, WiFiNetwork, WiFiSecurityType};
pub use crate::network_stats::{BandwidthPoint, NetworkStats, NetworkStatsTracker};
pub use crate::network_utils::get_wifi_icon;
pub use crate::resolver::{current_record, AccessPointProps, CurrentStateWalk, LinkFacts};
pub use crate::saved::{saved_networks, profile_to_delete, GroupShape, SavedProfile};
pub use crate::scan::ScanWalk;
pub use crate::security::NetworkManagerHelpers;

verus! {

} // verus!
