//! A client-side control and notification layer for the MPRIS media-player
//! remote-control protocol, spoken over a process-local message bus.
//!
//! The library holds the protocol logic: validating a player identity against
//! the bus's name list, building addressed method calls and property
//! requests, the two-step position-set protocol, player discovery, and the
//! bookkeeping of event subscriptions. Everything it produces and consumes is
//! a plain value, so every function here is verified; the asynchronous bus
//! transport that carries the calls lives outside the library and drives it
//! with those values.

mod error;
mod event_manager;
mod metadata;
mod player;
mod proto;
mod util;

pub mod methods;

pub use error::classify_method_error;
pub use error::classify_property_error;
pub use error::spec_is_transport_error_name;
pub use error::spec_is_unknown_property_name;
pub use error::MprisError;
pub use error::MprisErrorView;
pub use event_manager::lemma_clear_all_removed_leaves_none;
pub use event_manager::lemma_register_then_clear_leaves_none;
pub use event_manager::spec_failed_removals;
pub use event_manager::spec_member_name;
pub use event_manager::EventManager;
pub use event_manager::EventType;
pub use event_manager::FilterRule;
pub use metadata::get_metadata_property;
pub use metadata::Metadata;
pub use player::Player;
pub use proto::spec_control_call;
pub use proto::spec_mpris_prefix;
pub use proto::spec_object_path;
pub use proto::spec_open_uri_call;
pub use proto::spec_player_destination;
pub use proto::spec_player_interface;
pub use proto::spec_prop_get;
pub use proto::spec_prop_set;
pub use proto::spec_seek_call;
pub use proto::spec_seek_reverse_call;
pub use proto::spec_set_position_call;
pub use proto::CallView;
pub use proto::MethodCall;
pub use proto::PropGet;
pub use proto::PropGetView;
pub use proto::PropSet;
pub use proto::PropSetView;
pub use proto::PropValue;
pub use proto::PropValueView;
pub use proto::ProxyAddress;
pub use util::active_player_names;
pub use util::contains_str;
pub use util::has_mpris_prefix;
pub use util::spec_active_names;
pub use util::spec_discovered;
pub use util::spec_stripped;
pub use util::get_all_players;
pub use util::list_names_call;
pub use util::prop_cast;
pub use util::spec_list_names_call;
pub use util::str_eq;
pub use util::strip_player_prefix;
pub use util::validate;
