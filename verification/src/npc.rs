//! The data entity: one non-player character for a narrative application.

use vstd::prelude::*;

verus! {

/// A passive record describing one non-player character.
///
/// `name` and `appearance` are always present. Every other attribute is
/// optional: absence means "not yet specified", which is a distinct state
/// from being present and empty.
#[derive(Debug, PartialEq)]
pub struct Npc {
    /// Identifier within the eventual character catalog.
    pub name: String,
    /// Freeform description.
    pub appearance: String,
    pub temperament: Option<String>,
    pub accent: Option<String>,
    /// Representative quotes, in order.
    pub phrases: Option<Vec<String>>,
    pub background: Option<String>,
    /// Absence reads as "unknown", not as `false`.
    pub deceased: Option<bool>,
    /// Placeholder for a future structured stat block.
    pub stats_base: Option<String>,
}

impl Npc {
    /// Construct a record carrying only the required attributes. Every
    /// optional attribute is absent, never defaulted to an empty value.
    pub fn new(name: String, appearance: String) -> (npc: Npc)
        ensures
            npc.name == name,
            npc.appearance == appearance,
            npc.temperament is None,
            npc.accent is None,
            npc.phrases is None,
            npc.background is None,
            npc.deceased is None,
            npc.stats_base is None,
    {
        Npc {
            name,
            appearance,
            temperament: None,
            accent: None,
            phrases: None,
            background: None,
            deceased: None,
            stats_base: None,
        }
    }
}

} // verus!
