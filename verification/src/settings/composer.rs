//! Sticky composer defaults: the last harness, the last model of each harness and the last reasoning level.

use crate::lists::pointee;
use crate::model::{HarnessId, ReasoningLevel};
use vstd::prelude::*;

verus! {

/// A remembered model: its id, and its label so that it can be named before the models are loaded.
#[derive(Debug, PartialEq, Eq)]
pub struct RememberedModel {
    pub id: String,
    pub label: String,
}

/// The remembered model of each harness.
#[derive(Debug, PartialEq, Eq)]
pub struct ModelByHarness {
    pub claude_code: Option<RememberedModel>,
    pub codex: Option<RememberedModel>,
    pub cursor: Option<RememberedModel>,
    pub mock: Option<RememberedModel>,
}

impl ModelByHarness {
    /// The model of a harness.
    pub open spec fn of(self, harness: HarnessId) -> Option<RememberedModel> {
        match harness {
            HarnessId::ClaudeCode => self.claude_code,
            HarnessId::Codex => self.codex,
            HarnessId::Cursor => self.cursor,
            HarnessId::Mock => self.mock,
        }
    }
}

/// The remembered picks of the new-chat canvas.
#[derive(Debug, PartialEq, Eq)]
pub struct ComposerDefaults {
    /// Last harness picked.
    pub harness: Option<HarnessId>,
    /// Last model picked, per harness.
    pub model_by_harness: ModelByHarness,
    /// Last reasoning level picked.
    pub reasoning: Option<ReasoningLevel>,
}

impl Default for ComposerDefaults {
    fn default() -> (d: Self)
        ensures
            d.harness is None,
            forall|h: HarnessId| #[trigger] d.model_by_harness.of(h) is None,
            d.reasoning is None,
    {
        ComposerDefaults {
            harness: None,
            model_by_harness: ModelByHarness {
                claude_code: None,
                codex: None,
                cursor: None,
                mock: None,
            },
            reasoning: None,
        }
    }
}

impl ComposerDefaults {
    /// The remembered model for a harness, if any.
    pub fn model_for(&self, harness: HarnessId) -> (r: Option<&RememberedModel>)
        ensures
            pointee(r) == self.model_by_harness.of(harness),
    {
        let slot = match harness {
            HarnessId::ClaudeCode => &self.model_by_harness.claude_code,
            HarnessId::Codex => &self.model_by_harness.codex,
            HarnessId::Cursor => &self.model_by_harness.cursor,
            HarnessId::Mock => &self.model_by_harness.mock,
        };
        match slot {
            Some(model) => Some(model),
            None => None,
        }
    }

    /// Remembers a pick: its harness, and its model for that harness alone.
    pub fn remember_model(&mut self, harness: HarnessId, id: String, label: String)
        ensures
            final(self).harness == Some(harness),
            final(self).reasoning == old(self).reasoning,
            forall|h: HarnessId| #[trigger]
                final(self).model_by_harness.of(h) == (if h == harness {
                    Some(RememberedModel { id, label })
                } else {
                    old(self).model_by_harness.of(h)
                }),
    {
        self.harness = Some(harness);
        let model = Some(RememberedModel { id, label });
        match harness {
            HarnessId::ClaudeCode => {
                self.model_by_harness.claude_code = model;
            },
            HarnessId::Codex => {
                self.model_by_harness.codex = model;
            },
            HarnessId::Cursor => {
                self.model_by_harness.cursor = model;
            },
            HarnessId::Mock => {
                self.model_by_harness.mock = model;
            },
        }
    }

    /// The remembered picks after a reading of their file: what it held, or the defaults where it could not
    /// be read.
    pub fn or_default(read: Option<ComposerDefaults>) -> (d: Self)
        ensures
            read matches Some(r) ==> d == r,
            read is None ==> d.harness is None && d.reasoning is None && forall|h: HarnessId|
                #[trigger] d.model_by_harness.of(h) is None,
    {
        match read {
            Some(d) => d,
            None => ComposerDefaults::default(),
        }
    }
}

} // verus!
