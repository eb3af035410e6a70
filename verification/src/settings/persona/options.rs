//! What the choices on the page stand for.

use vstd::prelude::*;

use crate::fresh_id::{fresh_id, is_first_free, numbered, text_views};
use crate::id_set::TextSet;
use crate::path::{same_path, spell_same_optional_path, spell_same_path};
use crate::search::{first_position, first_position_is_first};
use crate::settings::llm::{LlmModelView, LlmSettings, LlmSettingsView, ModelKind};
use crate::settings::persona::config::{
    copy_texts, PersonaSettings, PersonaSettingsData, PersonaView,
};
use crate::settings::provider::options::ProviderCatalog;
use crate::text::{clone_optional, optional_view};

verus! {

/// The models of a kind, in order, among the first `count`.
pub open spec fn models_of_kind(models: Seq<LlmModelView>, kind: ModelKind, count: int) -> Seq<
    LlmModelView,
>
    decreases count,
{
    if count <= 0 || count > models.len() {
        Seq::empty()
    } else {
        let before = models_of_kind(models, kind, count - 1);
        if models[count - 1].kind == kind {
            before.push(models[count - 1])
        } else {
            before
        }
    }
}

/// The models on offer for a kind.
pub open spec fn model_choices(settings: LlmSettingsView, kind: ModelKind) -> Seq<LlmModelView> {
    models_of_kind(settings.models, kind, settings.models.len() as int)
}

/// Whether a model goes by an identifier.
pub open spec fn has_id(id: Seq<char>) -> spec_fn(LlmModelView) -> bool {
    |model: LlmModelView| model.id == id
}

/// The row of a bound model: the first row binds none.
pub open spec fn model_row(
    settings: LlmSettingsView,
    kind: ModelKind,
    bound: Option<Seq<char>>,
) -> int {
    match bound {
        None => 0,
        Some(id) => match first_position(model_choices(settings, kind), 0, has_id(id)) {
            Some(index) => index + 1,
            None => 0,
        },
    }
}

/// The identifier that a row binds.
pub open spec fn model_choice(settings: LlmSettingsView, kind: ModelKind, row: int) -> Option<
    Seq<char>,
> {
    let choices = model_choices(settings, kind);
    if 1 <= row <= choices.len() {
        Some(choices[row - 1].id)
    } else {
        None
    }
}

proof fn models_of_kind_grow(models: Seq<LlmModelView>, kind: ModelKind, count: int, whole: int)
    requires
        0 <= count <= whole <= models.len(),
    ensures
        models_of_kind(models, kind, count).len() <= models_of_kind(models, kind, whole).len(),
        forall|i: int|
            0 <= i < models_of_kind(models, kind, count).len() ==> #[trigger] models_of_kind(
                models,
                kind,
                count,
            )[i] == models_of_kind(models, kind, whole)[i],
    decreases whole - count,
{
    if count < whole {
        models_of_kind_grow(models, kind, count, whole - 1);
    }
}

/// Returns the row of a bound model.
pub fn model_option_index(settings: &LlmSettings, kind: ModelKind, bound: &Option<String>) -> (row:
    usize)
    requires
        settings.models@.len() < usize::MAX,
    ensures
        row == model_row(settings@, kind, optional_view(*bound)),
{
    let Some(id) = bound else {
        return 0;
    };
    let ghost models = settings@.models;
    let ghost wanted = has_id(id@);
    let mut row: usize = 0;
    let mut index: usize = 0;
    while index < settings.models.len()
        invariant
            index <= settings.models.len() < usize::MAX,
            models == settings@.models,
            *bound == Some(*id),
            wanted == has_id(id@),
            row == models_of_kind(models, kind, index as int).len(),
            row <= index,
            forall|i: int|
                0 <= i < row ==> !wanted(#[trigger] models_of_kind(models, kind, index as int)[i]),
        decreases settings.models.len() - index,
    {
        let ghost before = models_of_kind(models, kind, index as int);
        proof {
            assert(models[index as int] == settings.models@[index as int]@);
        }
        if settings.models[index].kind == kind {
            if settings.models[index].id == *id {
                proof {
                    let whole = model_choices(settings@, kind);
                    models_of_kind_grow(models, kind, index + 1, models.len() as int);
                    let extended = models_of_kind(models, kind, index + 1);
                    assert(extended[row as int] == models[index as int]);
                    assert(whole[row as int] == extended[row as int]);
                    assert(wanted(whole[row as int]));
                    assert forall|i: int| 0 <= i < row implies !wanted(#[trigger] whole[i]) by {
                        assert(extended[i] == before[i]);
                        assert(whole[i] == extended[i]);
                    }
                    first_position_is_first(whole, 0, wanted);
                }
                return row + 1;
            }
            row = row + 1;
        }
        index = index + 1;
    }
    proof {
        first_position_is_first(model_choices(settings@, kind), 0, wanted);
    }
    0
}

/// Returns the identifier that a row binds.
pub fn model_option_id(settings: &LlmSettings, kind: ModelKind, row: usize) -> (id: Option<String>)
    ensures
        optional_view(id) == model_choice(settings@, kind, row as int),
{
    let ghost models = settings@.models;
    if row == 0 {
        return None;
    }
    let mut passed: usize = 0;
    let mut index: usize = 0;
    while index < settings.models.len()
        invariant
            index <= settings.models.len(),
            models == settings@.models,
            row >= 1,
            passed == models_of_kind(models, kind, index as int).len(),
            passed <= index,
            passed < row,
        decreases settings.models.len() - index,
    {
        proof {
            assert(models[index as int] == settings.models@[index as int]@);
        }
        if settings.models[index].kind == kind {
            if passed == row - 1 {
                proof {
                    models_of_kind_grow(models, kind, index + 1, models.len() as int);
                    let extended = models_of_kind(models, kind, index + 1);
                    assert(extended[passed as int] == models[index as int]);
                    assert(model_choices(settings@, kind)[passed as int] == extended[passed as int]);
                }
                return Some(settings.models[index].id.clone());
            }
            passed = passed + 1;
        }
        index = index + 1;
    }
    None
}

/// A row of a model list.
#[derive(Debug, PartialEq, Eq)]
pub enum ModelOption {
    /// The general choice applies.
    Inherit,
    /// Nothing is spoken.
    Disabled,
    /// A model, as it is shown.
    Model(String),
}

/// How a model is shown: its name, then its provider.
pub open spec fn model_label(label: Seq<char>, provider: Seq<char>) -> Seq<char> {
    label + " · "@ + provider
}

/// The first row of a model list.
pub open spec fn unbound_option(kind: ModelKind) -> ModelOption {
    if kind == ModelKind::ChatCompletions {
        ModelOption::Inherit
    } else {
        ModelOption::Disabled
    }
}

/// Returns the rows of a model list.
pub fn model_option_names(settings: &LlmSettings, kind: ModelKind, catalog: &ProviderCatalog) -> (options:
    Vec<ModelOption>)
    ensures
        options@.len() == model_choices(settings@, kind).len() + 1,
        options@[0] == unbound_option(kind),
        forall|i: int|
            1 <= i < options@.len() ==> (#[trigger] options@[i] matches ModelOption::Model(text)
                && text@ == model_label(
                model_choices(settings@, kind)[i - 1].label,
                catalog.provider_name(model_choices(settings@, kind)[i - 1].provider),
            )),
{
    let first = if kind == ModelKind::ChatCompletions {
        ModelOption::Inherit
    } else {
        ModelOption::Disabled
    };
    let ghost models = settings@.models;
    let mut options = vec![first];
    let mut index: usize = 0;
    while index < settings.models.len()
        invariant
            index <= settings.models.len(),
            models == settings@.models,
            options@.len() == models_of_kind(models, kind, index as int).len() + 1,
            options@[0] == unbound_option(kind),
            forall|i: int|
                1 <= i < options@.len() ==> (#[trigger] options@[i] matches ModelOption::Model(text)
                    && text@ == model_label(
                    models_of_kind(models, kind, index as int)[i - 1].label,
                    catalog.provider_name(
                        models_of_kind(models, kind, index as int)[i - 1].provider,
                    ),
                )),
        decreases settings.models.len() - index,
    {
        let ghost before = models_of_kind(models, kind, index as int);
        let ghost options_before = options@;
        proof {
            assert(models[index as int] == settings.models@[index as int]@);
        }
        if settings.models[index].kind == kind {
            let mut text = settings.models[index].label.clone();
            text.append(" · ");
            let provider = catalog.provider_display_name(settings.models[index].provider);
            text.append(provider.as_str());
            options.push(ModelOption::Model(text));
            proof {
                let after = models_of_kind(models, kind, index + 1);
                assert(after =~= before.push(models[index as int]));
                assert forall|i: int| 1 <= i < options@.len() implies (#[trigger] options@[i] matches
                    ModelOption::Model(text) && text@ == model_label(
                    after[i - 1].label,
                    catalog.provider_name(after[i - 1].provider),
                )) by {
                    if i < options_before.len() {
                        assert(options@[i] == options_before[i]);
                        assert(after[i - 1] == before[i - 1]);
                    }
                }
            }
        }
        index = index + 1;
    }
    options
}

/// A Live2D model on offer.
#[derive(Debug)]
pub struct Live2dModelOption {
    pub label: String,
    /// Where the model lies; more than one text may spell it.
    pub path: String,
}

/// The paths of the models on offer.
pub open spec fn live2d_paths(models: Seq<Live2dModelOption>) -> Seq<Seq<char>> {
    Seq::new(models.len(), |i: int| models[i].path@)
}

/// How the Live2D models on offer are shown.
pub open spec fn live2d_labels(models: Seq<Live2dModelOption>) -> Seq<Seq<char>> {
    Seq::new(models.len(), |i: int| models[i].label@)
}

/// Whether a text spells the given path.
pub open spec fn is_path(wanted: Seq<char>) -> spec_fn(Seq<char>) -> bool {
    |path: Seq<char>| spell_same_path(path, wanted)
}

/// The row of a bound Live2D model: the first binds none, and one that is no longer on
/// offer gets a row of its own at the end.
pub open spec fn live2d_row(paths: Seq<Seq<char>>, bound: Option<Seq<char>>) -> int {
    match bound {
        None => 0,
        Some(path) => match first_position(paths, 0, is_path(path)) {
            Some(index) => index + 1,
            None => paths.len() as int + 1,
        },
    }
}

/// A bound Live2D model that is no longer on offer.
pub open spec fn live2d_missing(paths: Seq<Seq<char>>, bound: Option<Seq<char>>) -> Option<
    Seq<char>,
> {
    match bound {
        None => None,
        Some(path) => match first_position(paths, 0, is_path(path)) {
            Some(_) => None,
            None => Some(path),
        },
    }
}

/// The Live2D model that a row binds.
pub open spec fn live2d_choice(
    paths: Seq<Seq<char>>,
    missing: Option<Seq<char>>,
    row: int,
) -> Option<Seq<char>> {
    if row <= 0 {
        None
    } else if row <= paths.len() {
        Some(paths[row - 1])
    } else {
        missing
    }
}

/// Returns the row of a bound Live2D model, and the model itself if it is no longer on
/// offer.
pub fn live2d_option_state(models: &Vec<Live2dModelOption>, bound: &Option<String>) -> (state: (
    usize,
    Option<String>,
))
    requires
        models@.len() < usize::MAX,
    ensures
        state.0 == live2d_row(live2d_paths(models@), optional_view(*bound)),
        optional_view(state.1) == live2d_missing(live2d_paths(models@), optional_view(*bound)),
{
    let Some(path) = bound else {
        return (0, None);
    };
    let ghost paths = live2d_paths(models@);
    let ghost wanted = is_path(path@);
    let mut index: usize = 0;
    while index < models.len()
        invariant
            index <= models.len() < usize::MAX,
            paths == live2d_paths(models@),
            *bound == Some(*path),
            wanted == is_path(path@),
            first_position(paths, 0, wanted) == first_position(paths, index as int, wanted),
        decreases models.len() - index,
    {
        proof {
            assert(paths[index as int] == models@[index as int].path@);
        }
        if same_path(models[index].path.as_str(), path.as_str()) {
            return (index + 1, None);
        }
        index = index + 1;
    }
    (models.len() + 1, Some(path.clone()))
}

/// A row of the list of Live2D models.
#[derive(Debug, PartialEq, Eq)]
pub enum Live2dOption {
    /// The general choice applies.
    Inherit,
    /// A model on offer, as it is shown.
    Model(String),
    /// The path of a bound model that is no longer on offer.
    Missing(String),
}

/// Returns the rows of the list of Live2D models.
pub fn live2d_option_names(models: &Vec<Live2dModelOption>, missing: &Option<String>) -> (options:
    Vec<Live2dOption>)
    ensures
        options@.len() == models@.len() + 1 + (if missing is Some {
            1int
        } else {
            0int
        }),
        options@[0] == Live2dOption::Inherit,
        forall|i: int|
            0 <= i < models@.len() ==> (#[trigger] options@[i + 1]) == Live2dOption::Model(
                models@[i].label,
            ),
        missing matches Some(path) ==> options@.last() == Live2dOption::Missing(*path),
{
    let mut options = vec![Live2dOption::Inherit];
    let mut index: usize = 0;
    while index < models.len()
        invariant
            index <= models.len(),
            options@.len() == index + 1,
            options@[0] == Live2dOption::Inherit,
            forall|i: int|
                0 <= i < index ==> (#[trigger] options@[i + 1]) == Live2dOption::Model(
                    models@[i].label,
                ),
        decreases models.len() - index,
    {
        options.push(Live2dOption::Model(models[index].label.clone()));
        index = index + 1;
    }
    if let Some(path) = missing {
        options.push(Live2dOption::Missing(path.clone()));
    }
    options
}

/// Returns the Live2D model that a row binds.
pub fn selected_live2d_model(
    models: &Vec<Live2dModelOption>,
    missing: &Option<String>,
    row: usize,
) -> (path: Option<String>)
    ensures
        optional_view(path) == live2d_choice(
            live2d_paths(models@),
            optional_view(*missing),
            row as int,
        ),
{
    if row == 0 {
        return None;
    }
    if row - 1 < models.len() {
        return Some(models[row - 1].path.clone());
    }
    clone_optional(missing)
}

/// Whether a new persona must not get an identifier: it is that of a persona, or of one whose
/// memory still has to be cleared, or it is held back.
pub open spec fn persona_id_taken(
    settings: PersonaSettingsData,
    reserved: Set<Seq<char>>,
    id: Seq<char>,
) -> bool {
    reserved.contains(id) || settings.pending_deletions.contains(id) || settings.has_persona(id)
}

/// Whether `number` is the smallest one, from one on, whose identifier a new persona may get.
pub open spec fn is_next_persona_number(
    settings: PersonaSettingsData,
    reserved: Set<Seq<char>>,
    number: nat,
) -> bool {
    &&& number >= 1
    &&& !persona_id_taken(settings, reserved, numbered("persona-"@, number))
    &&& forall|smaller: nat|
        1 <= smaller < number ==> persona_id_taken(
            settings,
            reserved,
            #[trigger] numbered("persona-"@, smaller),
        )
}

/// Whether `id` is the identifier that a new persona gets.
pub open spec fn is_next_persona_id(
    settings: PersonaSettingsData,
    reserved: Set<Seq<char>>,
    id: Seq<char>,
) -> bool {
    exists|number: nat| #[trigger]
        is_next_persona_number(settings, reserved, number) && id == numbered("persona-"@, number)
}

spec fn listed_ids(settings: PersonaSettingsData) -> Seq<Seq<char>> {
    Seq::new(settings.personas.len(), |i: int| settings.personas[i].id)
}

proof fn taken_is_listed(settings: PersonaSettingsData, reserved: Seq<Seq<char>>, id: Seq<char>)
    ensures
        persona_id_taken(settings, reserved.to_set(), id) == (reserved
            + settings.pending_deletions + listed_ids(settings)).contains(id),
{
    let wanted = |persona: PersonaView| persona.id == id;
    first_position_is_first(settings.personas, 0, wanted);
    let first = reserved + settings.pending_deletions;
    let whole = first + listed_ids(settings);
    if reserved.contains(id) {
        let i = choose|i: int| 0 <= i < reserved.len() && reserved[i] == id;
        assert(whole[i] == id);
    }
    if settings.pending_deletions.contains(id) {
        let i = choose|i: int|
            0 <= i < settings.pending_deletions.len() && settings.pending_deletions[i] == id;
        assert(whole[reserved.len() + i] == id);
    }
    if let Some(i) = settings.position_of(id) {
        assert(whole[first.len() + i] == id);
    }
    if whole.contains(id) {
        let i = choose|i: int| 0 <= i < whole.len() && whole[i] == id;
        if i < reserved.len() {
            assert(reserved[i] == id);
        } else if i < first.len() {
            assert(settings.pending_deletions[i - reserved.len()] == id);
        } else {
            assert(wanted(settings.personas[i - first.len()]));
        }
    }
}

/// Returns the identifier that a new persona gets.
pub fn next_persona_id(settings: &PersonaSettings, reserved: &TextSet) -> (id: String)
    requires
        settings.personas@.len() + settings.pending_deletions@.len() + reserved.items@.len()
            < usize::MAX,
    ensures
        is_next_persona_id(settings@, reserved@, id@),
{
    let mut taken = copy_texts(&reserved.items);
    let mut deletions = copy_texts(&settings.pending_deletions);
    proof {
        assert(text_views(taken@).len() == reserved.items@.len());
        assert(text_views(deletions@).len() == settings.pending_deletions@.len());
    }
    let ghost first = taken@;
    let ghost second = deletions@;
    taken.append(&mut deletions);
    proof {
        assert(text_views(taken@) =~= text_views(first) + text_views(second));
    }
    let ghost start = text_views(taken@);
    let mut index: usize = 0;
    while index < settings.personas.len()
        invariant
            index <= settings.personas.len(),
            taken@.len() == start.len() + index,
            text_views(taken@) == start + listed_ids(settings@).take(index as int),
        decreases settings.personas.len() - index,
    {
        let ghost before = taken@;
        let id = settings.personas[index].id.clone();
        taken.push(id);
        proof {
            assert(listed_ids(settings@)[index as int] == id@);
            assert(text_views(taken@) =~= text_views(before).push(id@));
            assert(listed_ids(settings@).take(index + 1) =~= listed_ids(settings@).take(
                index as int,
            ).push(id@));
        }
        index = index + 1;
        proof {
            assert(text_views(taken@) =~= start + listed_ids(settings@).take(index as int));
        }
    }
    let ghost listed = text_views(reserved.items@) + settings@.pending_deletions + listed_ids(
        settings@,
    );
    proof {
        assert(text_views(taken@) =~= listed);
    }
    let id = fresh_id("persona-", &taken);
    proof {
        let number = choose|number: nat| #[trigger]
            is_first_free("persona-"@, listed, number) && id@ == numbered("persona-"@, number);
        taken_is_listed(settings@, text_views(reserved.items@), numbered("persona-"@, number));
        assert forall|smaller: nat| 1 <= smaller < number implies persona_id_taken(
            settings@,
            reserved@,
            #[trigger] numbered("persona-"@, smaller),
        ) by {
            taken_is_listed(settings@, text_views(reserved.items@), numbered("persona-"@, smaller));
        }
        assert(is_next_persona_number(settings@, reserved@, number));
    }
    id
}

/// A new persona gets none of the identifiers that are in use, whose memory still has to be
/// cleared, or that are held back.
pub proof fn next_persona_id_is_free(
    settings: PersonaSettingsData,
    reserved: Set<Seq<char>>,
    id: Seq<char>,
)
    requires
        is_next_persona_id(settings, reserved, id),
    ensures
        !reserved.contains(id),
        !settings.pending_deletions.contains(id),
        forall|i: int|
            0 <= i < settings.personas.len() ==> (#[trigger] settings.personas[i]).id != id,
{
    let wanted = |persona: PersonaView| persona.id == id;
    first_position_is_first(settings.personas, 0, wanted);
    assert forall|i: int| 0 <= i < settings.personas.len() implies (
    #[trigger] settings.personas[i]).id != id by {
        assert(!wanted(settings.personas[i]));
    }
}

/// Which identifier a new persona gets is fixed by those in use.
pub proof fn next_persona_id_is_determined(
    settings: PersonaSettingsData,
    reserved: Set<Seq<char>>,
    left: Seq<char>,
    right: Seq<char>,
)
    requires
        is_next_persona_id(settings, reserved, left),
        is_next_persona_id(settings, reserved, right),
    ensures
        left == right,
{
    let first = choose|number: nat| #[trigger]
        is_next_persona_number(settings, reserved, number) && left == numbered(
            "persona-"@,
            number,
        );
    let second = choose|number: nat| #[trigger]
        is_next_persona_number(settings, reserved, number) && right == numbered(
            "persona-"@,
            number,
        );
    if first < second {
        assert(persona_id_taken(settings, reserved, numbered("persona-"@, first)));
    } else if second < first {
        assert(persona_id_taken(settings, reserved, numbered("persona-"@, second)));
    }
}

/// A bound model on offer that is shown is chosen again.
pub proof fn model_row_stands_for_model(
    settings: LlmSettingsView,
    kind: ModelKind,
    bound: Option<Seq<char>>,
)
    requires
        bound matches Some(id) ==> exists|i: int|
            0 <= i < model_choices(settings, kind).len() && (#[trigger] model_choices(
                settings,
                kind,
            )[i]).id == id,
    ensures
        model_choice(settings, kind, model_row(settings, kind, bound)) == bound,
{
    if let Some(id) = bound {
        let choices = model_choices(settings, kind);
        first_position_is_first(choices, 0, has_id(id));
        let witness = choose|i: int| 0 <= i < choices.len() && (#[trigger] choices[i]).id == id;
        assert(has_id(id)(choices[witness]));
    }
}

/// A bound Live2D model that is shown is chosen again, whether it is still on offer or not;
/// if it is, its path is then spelled as in the offer.
pub proof fn live2d_row_stands_for_model(paths: Seq<Seq<char>>, bound: Option<Seq<char>>)
    ensures
        spell_same_optional_path(
            live2d_choice(paths, live2d_missing(paths, bound), live2d_row(paths, bound)),
            bound,
        ),
        bound matches Some(path) ==> paths.contains(
            live2d_choice(paths, live2d_missing(paths, bound), live2d_row(paths, bound))->0,
        ) || live2d_missing(paths, bound) == bound,
{
    if let Some(path) = bound {
        first_position_is_first(paths, 0, is_path(path));
    }
}

} // verus!
