//! Presence payloads: what is copied out of a template and shown.
//!
//! A template is the JSON value that the settings declare for a process.
//! A payload is the part of it that is shown: the entries `name`, `details`,
//! `state` and `type`, and, nested, the four entries of `assets`. Each value
//! is copied as it stands.

use crate::json::{json_model, lookup, same_value, Json};
use vstd::prelude::*;

verus! {

/// The images and hover texts of a payload.
pub struct PresenceAssets {
    pub large_image: Option<serde_json::Value>,
    pub large_text: Option<serde_json::Value>,
    pub small_image: Option<serde_json::Value>,
    pub small_text: Option<serde_json::Value>,
}

/// A presence as it is handed to the transport.
pub struct PresencePayload {
    pub name: serde_json::Value,
    pub details: Option<serde_json::Value>,
    pub state: Option<serde_json::Value>,
    pub activity_type: Option<serde_json::Value>,
    pub assets: Option<PresenceAssets>,
}

/// What a [`PresenceAssets`] holds.
pub struct AssetsView {
    pub large_image: Option<Json>,
    pub large_text: Option<Json>,
    pub small_image: Option<Json>,
    pub small_text: Option<Json>,
}

/// What a [`PresencePayload`] holds.
pub struct PayloadView {
    pub name: Json,
    pub details: Option<Json>,
    pub state: Option<Json>,
    pub activity_type: Option<Json>,
    pub assets: Option<AssetsView>,
}

/// The tree held by an optional value.
pub open spec fn model_of(value: Option<serde_json::Value>) -> Option<Json> {
    match value {
        Some(v) => Some(json_model(v)),
        None => None,
    }
}

impl AssetsView {
    /// The assets that the entry `assets` of a template declares: each of
    /// the four entries that is there, and nothing in place of the others.
    pub open spec fn of(assets: Json) -> AssetsView {
        AssetsView {
            large_image: assets.member("large_image"@),
            large_text: assets.member("large_text"@),
            small_image: assets.member("small_image"@),
            small_text: assets.member("small_text"@),
        }
    }
}

impl PayloadView {
    /// The payload that a template yields. A template without `name` yields
    /// none. Otherwise every entry that is there is copied, and none is
    /// made up for one that is missing.
    pub open spec fn of(template: Json) -> Option<PayloadView> {
        match template.member("name"@) {
            None => None,
            Some(name) => Some(
                PayloadView {
                    name,
                    details: template.member("details"@),
                    state: template.member("state"@),
                    activity_type: template.member("type"@),
                    assets: match template.member("assets"@) {
                        Some(assets) => Some(AssetsView::of(assets)),
                        None => None,
                    },
                },
            ),
        }
    }
}

impl View for PresenceAssets {
    type V = AssetsView;

    open spec fn view(&self) -> AssetsView {
        AssetsView {
            large_image: model_of(self.large_image),
            large_text: model_of(self.large_text),
            small_image: model_of(self.small_image),
            small_text: model_of(self.small_text),
        }
    }
}

impl View for PresencePayload {
    type V = PayloadView;

    open spec fn view(&self) -> PayloadView {
        PayloadView {
            name: json_model(self.name),
            details: model_of(self.details),
            state: model_of(self.state),
            activity_type: model_of(self.activity_type),
            assets: match self.assets {
                Some(assets) => Some(assets@),
                None => None,
            },
        }
    }
}

/// What an optional payload holds.
pub open spec fn payload_view(payload: Option<PresencePayload>) -> Option<PayloadView> {
    match payload {
        Some(p) => Some(p@),
        None => None,
    }
}

/// Copies the entry `key` of `target`, if there is one.
pub fn clone_kv_if_some(key: &str, target: &serde_json::Value) -> (copied: Option<
    serde_json::Value,
>)
    ensures
        model_of(copied) == json_model(*target).member(key@),
{
    match lookup(target, key) {
        Some(entry) => Some(entry.clone()),
        None => None,
    }
}

fn same_optional(left: &Option<serde_json::Value>, right: &Option<serde_json::Value>) -> (same:
    bool)
    ensures
        same == (model_of(*left) == model_of(*right)),
{
    match (left, right) {
        (Some(l), Some(r)) => same_value(l, r),
        (None, None) => true,
        _ => false,
    }
}

impl PresenceAssets {
    /// Copies the assets out of the entry `assets` of a template.
    pub fn from_template(assets: &serde_json::Value) -> (copied: PresenceAssets)
        ensures
            copied@ == AssetsView::of(json_model(*assets)),
    {
        PresenceAssets {
            large_image: clone_kv_if_some("large_image", assets),
            large_text: clone_kv_if_some("large_text", assets),
            small_image: clone_kv_if_some("small_image", assets),
            small_text: clone_kv_if_some("small_text", assets),
        }
    }

    /// Whether two sets of assets hold the same values.
    pub fn same(&self, other: &PresenceAssets) -> (same: bool)
        ensures
            same == (self@ == other@),
    {
        same_optional(&self.large_image, &other.large_image) && same_optional(
            &self.large_text,
            &other.large_text,
        ) && same_optional(&self.small_image, &other.small_image) && same_optional(
            &self.small_text,
            &other.small_text,
        )
    }
}

impl PresencePayload {
    /// Builds the payload of a template, or `None` for a template that has
    /// no `name`.
    pub fn from_template(template: &serde_json::Value) -> (built: Option<PresencePayload>)
        ensures
            payload_view(built) == PayloadView::of(json_model(*template)),
    {
        let name = match clone_kv_if_some("name", template) {
            Some(name) => name,
            None => return None,
        };
        let details = clone_kv_if_some("details", template);
        let state = clone_kv_if_some("state", template);
        let activity_type = clone_kv_if_some("type", template);
        let assets = match lookup(template, "assets") {
            Some(declared) => Some(PresenceAssets::from_template(declared)),
            None => None,
        };
        Some(PresencePayload { name, details, state, activity_type, assets })
    }

    /// Whether two payloads hold the same values.
    pub fn same(&self, other: &PresencePayload) -> (same: bool)
        ensures
            same == (self@ == other@),
    {
        let same_assets = match (&self.assets, &other.assets) {
            (Some(mine), Some(theirs)) => mine.same(theirs),
            (None, None) => true,
            _ => false,
        };
        same_value(&self.name, &other.name) && same_optional(&self.details, &other.details)
            && same_optional(&self.state, &other.state) && same_optional(
            &self.activity_type,
            &other.activity_type,
        ) && same_assets
    }
}

} // verus!
