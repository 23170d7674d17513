//! The request builders for a player's control surface. Each function takes
//! a player handle and plain values and produces the fully addressed request
//! the transport is to dispatch. They are also all available as methods on
//! the player handle itself.

pub mod methods_complex;
pub mod methods_simple;

pub use methods_complex::get_metadata;
pub use methods_complex::get_property;
pub use methods_complex::lemma_seek_reverse_is_seek_negated;
pub use methods_complex::lemma_set_position_fetch_failure;
pub use methods_complex::open_uri;
pub use methods_complex::seek;
pub use methods_complex::seek_reverse;
pub use methods_complex::set_position;
pub use methods_complex::set_property;
pub use methods_complex::spec_fetched_view;
pub use methods_complex::spec_set_position;
pub use methods_complex::spec_set_position_result;
pub use methods_complex::spec_track_id_key;
pub use methods_simple::next;
pub use methods_simple::pause;
pub use methods_simple::play;
pub use methods_simple::play_pause;
pub use methods_simple::previous;
pub use methods_simple::stop;
