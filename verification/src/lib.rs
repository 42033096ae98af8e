//! A declarative widget runtime: schema-driven widget renderers with an
//! outbound interaction-event channel, and small per-frame animated state
//! machines (progressive text reveal, inertial scrolling, tooltip lifecycle).
#![verifier::loop_isolation(false)]

pub mod charts;
pub mod digital;
pub mod dispatch;
pub mod events;
pub mod form;
pub mod interact;
pub mod markdown;
pub mod runtime;
pub mod schema;
pub mod scroll;
pub mod tables;
pub mod tech;
pub mod terminal;
pub mod text;
pub mod textops;
pub mod tooltip;
pub mod value;
pub mod visual;

pub use digital::{DigitalEffect, DigitalLabel, EffectTimer};
pub use dispatch::UiInput;
pub use events::{EventChannel, InteractionEvent};
pub use form::FormStore;
pub use runtime::{Runtime, TickInput};
pub use schema::{SchemaNode, WidgetKind};
pub use scroll::FluentScroll;
pub use tech::TechGizmos;
pub use textops::str_eq;
pub use tooltip::{HoverEvent, HoverState, Tooltip, TooltipOverlay, TooltipRegistry};
pub use value::{clone_value, value_eq, Value};
pub use visual::{Severity, VisualBlock};
