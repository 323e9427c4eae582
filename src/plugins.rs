//! Plugin aliases, tags and identifiers.

use vstd::prelude::*;
use std::collections::BTreeMap;
use crate::layout::RunPlugin;

verus! {

/// Relies on `Extend::extend` for `BTreeMap`: every pair of `other` is
/// inserted, its value replacing the one of an equal key.
#[verifier::external_body]
fn extend_map(m: &mut BTreeMap<String, RunPlugin>, other: BTreeMap<String, RunPlugin>)
    ensures
        final(m)@ == old(m)@.union_prefer_right(other@),
{
    m.extend(other)
}

/// Named plugins that layouts can refer to.
#[derive(Debug, Clone, Default, PartialEq)]
pub struct PluginAliases {
    pub aliases: BTreeMap<String, RunPlugin>,
}

impl PluginAliases {
    /// Adds the aliases of `other`; on a shared name, `other`'s plugin wins.
    pub fn merge(&mut self, other: PluginAliases)
        ensures
            final(self).aliases@ == old(self).aliases@.union_prefer_right(other.aliases@),
    {
        extend_map(&mut self.aliases, other.aliases);
    }

    /// The aliases given by `data`.
    pub fn from_data(data: BTreeMap<String, RunPlugin>) -> (r: PluginAliases)
        ensures
            r.aliases@ == data@,
    {
        PluginAliases { aliases: data }
    }
}

/// Why a plugin's configuration was refused.
#[derive(Debug, Clone)]
pub enum PluginsConfigError {
    InvalidUrlScheme(String),
    InvalidUrl(String),
    Generic(String),
}

impl PluginsConfigError {
    /// The error as text.
    pub fn message(&self) -> (r: String)
        ensures
            self matches PluginsConfigError::InvalidUrlScheme(m) ==> r@ == "Invalid URL scheme: "@ + m@,
            self matches PluginsConfigError::InvalidUrl(m) ==> r@ == "Invalid URL: "@ + m@,
            self matches PluginsConfigError::Generic(m) ==> r@ == m@,
    {
        match self {
            PluginsConfigError::InvalidUrlScheme(m) => {
                let mut r = String::from_str("Invalid URL scheme: ");
                r.append(m.as_str());
                r
            },
            PluginsConfigError::InvalidUrl(m) => {
                let mut r = String::from_str("Invalid URL: ");
                r.append(m.as_str());
                r
            },
            PluginsConfigError::Generic(m) => m.clone(),
        }
    }
}

/// A plugin's tag: its name.
#[derive(Debug, Clone, PartialEq, Eq, Hash)]
pub enum PluginTag {
    Stub(String),
}

impl PluginTag {
    /// The tag named `name`.
    pub fn new(name: &str) -> (r: PluginTag)
        ensures
            r matches PluginTag::Stub(n) && n@ == name@,
    {
        PluginTag::Stub(String::from_str(name))
    }

    /// The tag as text: its name.
    pub fn name(&self) -> (r: String)
        ensures
            self matches PluginTag::Stub(n) && r@ == n@,
    {
        match self {
            PluginTag::Stub(n) => n.clone(),
        }
    }
}

#[derive(Debug, Clone, Copy, PartialEq, Eq, Hash, Structural)]
pub struct PluginId(pub u32);

/// Rendered bytes of a plugin, for one client or for all.
#[derive(Debug, Clone)]
pub struct PluginRenderAsset {
    pub plugin_id: PluginId,
    pub client_id: Option<u16>,
    pub bytes: Vec<u8>,
}

} // verus!
