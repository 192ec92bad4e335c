//! Live PV power and solar yield (today, this month, this year) for a
//! Victron Energy system, read through Home Assistant's template endpoint.
//!
//! The library holds the widget's logic: validating entity ids and
//! splicing them into the Jinja template, building the request, merging
//! replies into the displayed state, the manifest parameters and the
//! size table of the layouts.

pub mod display;
pub mod layout;
pub mod params;
pub mod request;
pub mod solar;
pub mod template;

pub use display::{stat_lines, StatLine, NOT_AVAILABLE};
pub use layout::{size_params, SizeParams, SizeVariant};
pub use params::{Params, ParamsCache, HA_TOKEN};
pub use request::{auth_header, build_request, template_endpoint, RequestPlan};
pub use solar::{merge_field, Availability, Reply, ReplyAction, SolarData};
pub use template::{build_template, entity_id_safe, reply_fields, reply_key_str, reply_path, ReplyField};
