//! The schema model: one externally supplied, declaratively described unit
//! of user interface.

use vstd::prelude::*;

use crate::value::Value;

verus! {

/// The closed set of widget variants a schema node can ask for. A tag the
/// producer sends that matches none of the known variants arrives as
/// `Unknown` and renders nothing.
#[derive(Clone, Copy, Debug, PartialEq, Eq, Structural)]
pub enum WidgetKind {
    Chart,
    Button,
    ActionPanel,
    ProcessList,
    StatusGrid,
    Table,
    Terminal,
    LogStream,
    Markdown,
    PlainText,
    Form,
    Unknown,
}

/// One renderable unit: identity, variant tag, optional title, and an
/// untyped payload tree. The payload originates outside the runtime and is
/// never trusted: a missing or wrong-typed field falls back to a documented
/// default, never to a panic.
pub struct SchemaNode {
    /// Stable identity, unique per live instance; echoed into outbound
    /// events and used as the key for retained per-node state.
    pub id: String,
    /// Selects the renderer.
    pub kind: WidgetKind,
    /// Optional heading shown above the widget body.
    pub title: Option<String>,
    /// The untyped key -> value payload.
    pub data: Value,
}

} // verus!
