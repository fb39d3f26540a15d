//! What the pickers accumulate for a new chat, and its labels.

use crate::lists;
use crate::lists::{find_first, pointee, pointees};
use crate::model::{
    clone_options, ChatConfig, HarnessDescriptor, HarnessId, Model, ModelOption,
    ModelOptionChoice, ReasoningLevel, Repo, SandboxLevel,
};
use crate::options::{chosen_in, no_options, nothing_chosen, option_text, option_texts};
use crate::text;
use crate::text::{text_opt, texts};
use vstd::prelude::*;

verus! {

/// Everything a new chat is configured with before the first send.
#[derive(Debug, PartialEq)]
pub struct DraftConfig {
    pub harness: Option<HarnessId>,
    pub model: Option<String>,
    pub reasoning: Option<ReasoningLevel>,
    /// Option id to choice id; only choices that are not the default are kept.
    pub model_options: serde_json::Map<String, serde_json::Value>,
    pub repo: Option<Repo>,
    pub branch: Option<String>,
    /// Run in an isolated worktree.
    pub isolated_worktree: bool,
}

impl Default for DraftConfig {
    fn default() -> (d: Self)
        ensures
            d.harness is None,
            d.model is None,
            d.reasoning is None,
            option_texts(d.model_options) == nothing_chosen(),
            d.repo is None,
            d.branch is None,
            !d.isolated_worktree,
    {
        DraftConfig {
            harness: None,
            model: None,
            reasoning: None,
            model_options: no_options(),
            repo: None,
            branch: None,
            isolated_worktree: false,
        }
    }
}

impl DraftConfig {
    /// The configuration recorded on the chat; it takes a known harness.
    pub fn chat_config(&self) -> (r: Option<ChatConfig>)
        ensures
            r == (match self.harness {
                Some(harness) => Some(
                    ChatConfig {
                        harness,
                        model: self.model,
                        reasoning: self.reasoning,
                        model_options: self.model_options,
                        sandbox: SandboxLevel::WorkspaceWrite,
                    },
                ),
                None => None,
            }),
    {
        match self.harness {
            Some(harness) => Some(
                ChatConfig {
                    harness,
                    model: text::copied(&self.model),
                    reasoning: self.reasoning,
                    model_options: clone_options(&self.model_options),
                    sandbox: SandboxLevel::WorkspaceWrite,
                },
            ),
            None => None,
        }
    }
}

/// The label of a reasoning level.
pub open spec fn level_label(level: ReasoningLevel) -> Seq<char> {
    match level {
        ReasoningLevel::Minimal => "Minimal"@,
        ReasoningLevel::Low => "Low"@,
        ReasoningLevel::Medium => "Medium"@,
        ReasoningLevel::High => "High"@,
        ReasoningLevel::XHigh => "X-High"@,
        ReasoningLevel::Max => "Max"@,
        ReasoningLevel::Ultra => "Ultra"@,
        ReasoningLevel::Ultracode => "Ultracode"@,
        ReasoningLevel::Ultrathink => "Ultrathink"@,
    }
}

pub fn reasoning_label(level: ReasoningLevel) -> (r: &'static str)
    ensures
        r@ == level_label(level),
{
    match level {
        ReasoningLevel::Minimal => "Minimal",
        ReasoningLevel::Low => "Low",
        ReasoningLevel::Medium => "Medium",
        ReasoningLevel::High => "High",
        ReasoningLevel::XHigh => "X-High",
        ReasoningLevel::Max => "Max",
        ReasoningLevel::Ultra => "Ultra",
        ReasoningLevel::Ultracode => "Ultracode",
        ReasoningLevel::Ultrathink => "Ultrathink",
    }
}

/// The test for the choice with an id.
pub open spec fn choice_is(id: Seq<char>) -> spec_fn(ModelOptionChoice) -> bool {
    |c: ModelOptionChoice| c.id@ == id
}

/// What the summary says of an option: the label of its choice, where that is known and not the default.
pub open spec fn summary_part(option: ModelOption, chosen: Option<Seq<char>>) -> Option<Seq<char>> {
    match chosen {
        Some(id) => if id == option.default_choice@ {
            None
        } else {
            match find_first(option.choices@, choice_is(id)) {
                Some(choice) => Some(choice.label@),
                None => None,
            }
        },
        None => None,
    }
}

/// What the summary says of an option, given its chosen choice.
pub fn option_label(option: &ModelOption, chosen: Option<String>) -> (r: Option<String>)
    ensures
        text_opt(r) == summary_part(*option, text_opt(chosen)),
{
    match chosen {
        Some(id) => {
            if text::same(id.as_str(), option.default_choice.as_str()) {
                return None;
            }
            let ghost p = choice_is(id@);
            let same_id = |c: &ModelOptionChoice| -> (b: bool)
                ensures
                    b == p(*c),
                { text::same(c.id.as_str(), id.as_str()) };
            match lists::find(&option.choices, same_id, Ghost(p)) {
                Some(choice) => Some(choice.label.clone()),
                None => None,
            }
        },
        None => None,
    }
}

/// What the summary says of options, in order.
pub open spec fn summary_parts(
    options: Seq<ModelOption>,
    contents: Map<Seq<char>, Option<Seq<char>>>,
) -> Seq<Seq<char>>
    decreases options.len(),
{
    if options.len() == 0 {
        Seq::empty()
    } else {
        let before = summary_parts(options.drop_last(), contents);
        match summary_part(options.last(), chosen_in(contents, options.last().id@)) {
            Some(part) => before.push(part),
            None => before,
        }
    }
}

/// All parts of the summary: the reasoning level, then the options.
pub open spec fn all_parts(
    model: Option<Model>,
    reasoning: Option<ReasoningLevel>,
    contents: Map<Seq<char>, Option<Seq<char>>>,
) -> Seq<Seq<char>> {
    let levels = match reasoning {
        Some(level) => seq![level_label(level)],
        None => Seq::empty(),
    };
    let options = match model {
        Some(m) => summary_parts(m.options@, contents),
        None => Seq::empty(),
    };
    levels + options
}

/// Texts with a separator between them.
pub open spec fn joined_by(parts: Seq<Seq<char>>, separator: Seq<char>) -> Seq<char>
    decreases parts.len(),
{
    if parts.len() == 0 {
        Seq::empty()
    } else if parts.len() == 1 {
        parts[0]
    } else {
        joined_by(parts.drop_last(), separator) + separator + parts.last()
    }
}

/// Joins texts with a separator between them.
pub fn join(parts: &[String], separator: &str) -> (out: String)
    ensures
        out@ == joined_by(texts(parts@), separator@),
{
    let mut out = String::new();
    let mut i: usize = 0;
    let ghost all = texts(parts@);
    proof {
        assert(all.take(0) =~= Seq::<Seq<char>>::empty());
    }
    while i < parts.len()
        invariant
            i <= parts.len(),
            all == texts(parts@),
            out@ == joined_by(all.take(i as int), separator@),
        decreases parts.len() - i,
    {
        proof {
            assert(all.take(i + 1).drop_last() =~= all.take(i as int));
        }
        if i > 0 {
            out.append(separator);
        }
        out.append(parts[i].as_str());
        proof {
            if i == 0 {
                assert(out@ =~= all.take(1)[0]);
            }
        }
        i = i + 1;
    }
    proof {
        assert(all.take(i as int) =~= all);
    }
    out
}

/// The summary of the traits that are not at their default; nothing when all of them are.
pub open spec fn summary_of(
    model: Option<Model>,
    reasoning: Option<ReasoningLevel>,
    contents: Map<Seq<char>, Option<Seq<char>>>,
) -> Option<Seq<char>> {
    let parts = all_parts(model, reasoning, contents);
    if parts.len() == 0 {
        None
    } else {
        Some(joined_by(parts, " · "@))
    }
}

/// The trigger summary of the traits picker: reasoning and option choices that are not the default.
pub fn traits_summary(
    model: Option<&Model>,
    reasoning: Option<ReasoningLevel>,
    selections: &serde_json::Map<String, serde_json::Value>,
) -> (r: Option<String>)
    ensures
        text_opt(r) == summary_of(pointee(model), reasoning, option_texts(*selections)),
{
    let mut parts: Vec<String> = Vec::new();
    let ghost contents = option_texts(*selections);
    if let Some(level) = reasoning {
        parts.push(reasoning_label(level).to_owned());
    }
    let ghost levels = texts(parts@);
    proof {
        assert(levels =~= (match reasoning {
            Some(level) => seq![level_label(level)],
            None => Seq::<Seq<char>>::empty(),
        }));
    }
    if let Some(model) = model {
        let mut i: usize = 0;
        proof {
            assert(model.options@.take(0) =~= Seq::<ModelOption>::empty());
            assert(texts(parts@) =~= levels + summary_parts(model.options@.take(0), contents));
        }
        while i < model.options.len()
            invariant
                i <= model.options.len(),
                contents == option_texts(*selections),
                texts(parts@) == levels + summary_parts(model.options@.take(i as int), contents),
            decreases model.options.len() - i,
        {
            let option = &model.options[i];
            let chosen = option_text(selections, option.id.as_str());
            let ghost before = parts@;
            proof {
                assert(model.options@.take(i + 1).drop_last() =~= model.options@.take(i as int));
            }
            if let Some(label) = option_label(option, chosen) {
                parts.push(label);
                proof {
                    assert(texts(parts@) =~= texts(before).push(label@));
                    assert(texts(parts@) =~= levels + summary_parts(
                        model.options@.take(i + 1),
                        contents,
                    ));
                }
            }
            i = i + 1;
        }
        proof {
            assert(model.options@.take(i as int) =~= model.options@);
        }
    } else {
        proof {
            assert(levels + Seq::<Seq<char>>::empty() =~= levels);
        }
    }
    if parts.len() == 0 {
        None
    } else {
        Some(join(&parts, " · "))
    }
}

/// With nothing chosen and no reasoning level there is no summary.
pub proof fn defaults_have_no_summary(model: Option<Model>)
    ensures
        summary_of(model, None, nothing_chosen()) is None,
{
    match model {
        Some(m) => nothing_chosen_has_no_parts(m.options@),
        None => {},
    }
}

proof fn nothing_chosen_has_no_parts(options: Seq<ModelOption>)
    ensures
        summary_parts(options, nothing_chosen()).len() == 0,
    decreases options.len(),
{
    if options.len() > 0 {
        nothing_chosen_has_no_parts(options.drop_last());
    }
}

/// The test for a harness that is not the mock.
pub open spec fn is_real() -> spec_fn(HarnessDescriptor) -> bool {
    |d: HarnessDescriptor| d.id != HarnessId::Mock
}

/// The harnesses to offer: all but the mock, or everything where there is nothing else.
pub open spec fn offered(list: Seq<HarnessDescriptor>) -> Seq<HarnessDescriptor> {
    if list.filter(is_real()).len() == 0 {
        list
    } else {
        list.filter(is_real())
    }
}

/// The harnesses to offer: the mock is hidden unless it is all there is.
pub fn visible_harnesses(list: &[HarnessDescriptor]) -> (out: Vec<&HarnessDescriptor>)
    ensures
        pointees(out@) == offered(list@),
{
    let ghost p = is_real();
    let not_mock = |d: &HarnessDescriptor| -> (b: bool)
        ensures
            b == p(*d),
        { d.id != HarnessId::Mock };
    let out = lists::select(list, not_mock, Ghost(p));
    if out.len() > 0 {
        return out;
    }
    proof {
        assert(pointees(out@).len() == 0);
    }
    let ghost q = |d: HarnessDescriptor| true;
    let every = |d: &HarnessDescriptor| -> (b: bool)
        ensures
            b == q(*d),
        { true };
    proof {
        lists::filter_of_all(list@, q);
    }
    lists::select(list, every, Ghost(q))
}

} // verus!
