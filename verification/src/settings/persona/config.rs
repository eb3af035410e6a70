//! Personas: who the companion is, and with which models it thinks, speaks and looks.

use vstd::prelude::*;

use crate::fresh_id::{contains_text, same_texts, text_views};
use crate::path::{same_optional_path, spell_same_optional_path};
use crate::search::first_position;
use crate::text::{clone_optional, optional_view, same_optional};

verus! {

/// How much of a conversation is kept; the defaults apply where nothing is set.
#[derive(Debug, Clone, Copy, PartialEq, Eq, Structural)]
pub struct PersonaContextLimits {
    pub max_messages: Option<u32>,
    pub max_tokens: Option<u32>,
}

/// A persona.
#[derive(Debug)]
pub struct PersonaConfig {
    pub id: String,
    pub name: String,
    pub system_prompt: String,
    pub input_prompt: String,
    /// The chat model; without one the general choice applies.
    pub model: Option<String>,
    /// The speech model; without one nothing is spoken.
    pub tts_model: Option<String>,
    /// Where the Live2D model lies, which more than one text may spell; without one the
    /// general choice applies.
    pub live2d_model: Option<String>,
    pub context: PersonaContextLimits,
}

/// A persona, in its texts.
#[verifier::ext_equal]
pub struct PersonaView {
    pub id: Seq<char>,
    pub name: Seq<char>,
    pub system_prompt: Seq<char>,
    pub input_prompt: Seq<char>,
    pub model: Option<Seq<char>>,
    pub tts_model: Option<Seq<char>>,
    pub live2d_model: Option<Seq<char>>,
    pub context: PersonaContextLimits,
}

impl View for PersonaConfig {
    type V = PersonaView;

    open spec fn view(&self) -> PersonaView {
        PersonaView {
            id: self.id@,
            name: self.name@,
            system_prompt: self.system_prompt@,
            input_prompt: self.input_prompt@,
            model: optional_view(self.model),
            tts_model: optional_view(self.tts_model),
            live2d_model: optional_view(self.live2d_model),
            context: self.context,
        }
    }
}

impl Clone for PersonaConfig {
    fn clone(&self) -> (copy: Self)
        ensures
            copy == *self,
    {
        PersonaConfig {
            id: self.id.clone(),
            name: self.name.clone(),
            system_prompt: self.system_prompt.clone(),
            input_prompt: self.input_prompt.clone(),
            model: clone_optional(&self.model),
            tts_model: clone_optional(&self.tts_model),
            live2d_model: clone_optional(&self.live2d_model),
            context: self.context,
        }
    }
}

impl PersonaConfig {
    /// Tells whether two personas are alike.
    pub fn same_as(&self, other: &PersonaConfig) -> (same: bool)
        ensures
            same == self@.alike(other@),
    {
        self.id == other.id && self.name == other.name && self.system_prompt == other.system_prompt
            && self.input_prompt == other.input_prompt && same_optional(&self.model, &other.model)
            && same_optional(&self.tts_model, &other.tts_model) && same_optional_path(
            &self.live2d_model,
            &other.live2d_model,
        ) && self.context == other.context
    }
}

impl PersonaView {
    /// Whether two personas are alike. The path of a Live2D model may be spelled in more ways
    /// than one.
    pub open spec fn alike(self, other: PersonaView) -> bool {
        &&& spell_same_optional_path(self.live2d_model, other.live2d_model)
        &&& (PersonaView { live2d_model: other.live2d_model, ..self }) == other
    }
}

/// The texts of a list of personas.
pub open spec fn persona_views(personas: Seq<PersonaConfig>) -> Seq<PersonaView> {
    Seq::new(personas.len(), |i: int| personas[i]@)
}

/// All personas, which one is in use, and those whose memory still has to be cleared.
#[derive(Debug)]
pub struct PersonaSettings {
    pub personas: Vec<PersonaConfig>,
    pub selected: Option<String>,
    pub pending_deletions: Vec<String>,
}

/// All personas, in their texts.
#[verifier::ext_equal]
pub struct PersonaSettingsData {
    pub personas: Seq<PersonaView>,
    pub selected: Option<Seq<char>>,
    pub pending_deletions: Seq<Seq<char>>,
}

impl PersonaSettingsData {
    /// Whether two sets of personas are alike.
    pub open spec fn alike(self, other: PersonaSettingsData) -> bool {
        &&& self.personas.len() == other.personas.len()
        &&& forall|i: int|
            0 <= i < self.personas.len() ==> (#[trigger] self.personas[i]).alike(other.personas[i])
        &&& self.selected == other.selected
        &&& self.pending_deletions == other.pending_deletions
    }
}

impl View for PersonaSettings {
    type V = PersonaSettingsData;

    open spec fn view(&self) -> PersonaSettingsData {
        PersonaSettingsData {
            personas: persona_views(self.personas@),
            selected: optional_view(self.selected),
            pending_deletions: text_views(self.pending_deletions@),
        }
    }
}

/// The texts other than `text`, in order.
pub open spec fn without_text(texts: Seq<Seq<char>>, text: Seq<char>) -> Seq<Seq<char>>
    decreases texts.len(),
{
    if texts.len() == 0 {
        Seq::empty()
    } else {
        let front = without_text(texts.drop_last(), text);
        if texts.last() == text {
            front
        } else {
            front.push(texts.last())
        }
    }
}

/// Removing a text that is not there changes nothing; afterwards it never is.
pub proof fn without_text_removes(texts: Seq<Seq<char>>, text: Seq<char>)
    ensures
        !without_text(texts, text).contains(text),
        !texts.contains(text) ==> without_text(texts, text) == texts,
        without_text(texts, text).len() <= texts.len(),
        texts.contains(text) ==> without_text(texts, text).len() < texts.len(),
        forall|other: Seq<char>|
            other != text ==> without_text(texts, text).contains(other) == #[trigger] texts.contains(
                other,
            ),
    decreases texts.len(),
{
    if texts.len() > 0 {
        let front = texts.drop_last();
        let last = texts.last();
        without_text_removes(front, text);
        assert(front.push(last) =~= texts);
        let kept = without_text(texts, text);
        assert forall|other: Seq<char>| #[trigger]
            texts.contains(other) == (front.contains(other) || other == last) by {
            if front.contains(other) {
                let i = choose|i: int| 0 <= i < front.len() && front[i] == other;
                assert(texts[i] == other);
            }
            if other == last {
                assert(texts[texts.len() - 1] == other);
            }
        }
        if last != text {
            let kept_front = without_text(front, text);
            assert forall|other: Seq<char>| #[trigger]
                kept.contains(other) == (kept_front.contains(other) || other == last) by {
                if kept_front.contains(other) {
                    let i = choose|i: int| 0 <= i < kept_front.len() && kept_front[i] == other;
                    assert(kept[i] == other);
                }
                if other == last {
                    assert(kept[kept.len() - 1] == other);
                }
            }
        }
    }
}

/// Removes every occurrence of `text` from `texts`.
pub fn remove_text(texts: &mut Vec<String>, text: &String)
    ensures
        text_views(final(texts)@) == without_text(text_views(old(texts)@), text@),
{
    let mut kept: Vec<String> = Vec::new();
    let mut index: usize = 0;
    proof {
        assert(text_views(kept@) =~= without_text(text_views(texts@).take(0), text@));
    }
    while index < texts.len()
        invariant
            index <= texts.len(),
            *texts == *old(texts),
            text_views(kept@) == without_text(text_views(texts@).take(index as int), text@),
        decreases texts.len() - index,
    {
        let ghost before = text_views(kept@);
        proof {
            assert(text_views(texts@).take(index + 1).drop_last() =~= text_views(texts@).take(
                index as int,
            ));
        }
        if texts[index] != *text {
            let item = texts[index].clone();
            kept.push(item);
            proof {
                assert(text_views(kept@) =~= before.push(item@));
            }
        }
        index = index + 1;
    }
    proof {
        assert(text_views(texts@).take(texts@.len() as int) =~= text_views(texts@));
    }
    *texts = kept;
}

/// Copies a list of texts.
pub fn copy_texts(texts: &Vec<String>) -> (copy: Vec<String>)
    ensures
        text_views(copy@) == text_views(texts@),
{
    let mut copy: Vec<String> = Vec::new();
    let mut index: usize = 0;
    while index < texts.len()
        invariant
            index <= texts.len(),
            copy@ == texts@.take(index as int),
        decreases texts.len() - index,
    {
        copy.push(texts[index].clone());
        index = index + 1;
    }
    proof {
        assert(copy@ =~= texts@);
    }
    copy
}

impl PersonaSettingsData {
    /// Where the persona with the given identifier is.
    pub open spec fn position_of(self, id: Seq<char>) -> Option<int> {
        first_position(self.personas, 0, |persona: PersonaView| persona.id == id)
    }

    /// Where the persona in use is.
    pub open spec fn selected_position(self) -> Option<int> {
        match self.selected {
            Some(id) => self.position_of(id),
            None => None,
        }
    }

    /// The persona at a position, if there is one.
    pub open spec fn persona_at(self, index: Option<usize>) -> Option<PersonaView> {
        match index {
            Some(index) => if index < self.personas.len() {
                Some(self.personas[index as int])
            } else {
                None
            },
            None => None,
        }
    }

    /// Whether there is a persona with the given identifier.
    pub open spec fn has_persona(self, id: Seq<char>) -> bool {
        self.position_of(id) is Some
    }
}

impl PersonaSettings {
    /// Returns where the persona with the given identifier is.
    pub fn persona_index(&self, id: &String) -> (index: Option<usize>)
        ensures
            match index {
                Some(index) => self@.position_of(id@) == Some(index as int) && index
                    < self.personas@.len() && self@.personas[index as int].id == id@,
                None => self@.position_of(id@) is None,
            },
    {
        let ghost wanted = |persona: PersonaView| persona.id == id@;
        let mut index: usize = 0;
        while index < self.personas.len()
            invariant
                index <= self.personas.len(),
                wanted == (|persona: PersonaView| persona.id == id@),
                first_position(self@.personas, 0, wanted) == first_position(
                    self@.personas,
                    index as int,
                    wanted,
                ),
            decreases self.personas.len() - index,
        {
            proof {
                assert(self@.personas[index as int] == self.personas@[index as int]@);
            }
            if self.personas[index].id == *id {
                return Some(index);
            }
            index = index + 1;
        }
        None
    }

    /// Returns where the persona in use is.
    pub fn selected_index(&self) -> (index: Option<usize>)
        ensures
            match index {
                Some(index) => self@.selected_position() == Some(index as int) && index
                    < self.personas@.len(),
                None => self@.selected_position() is None,
            },
    {
        match &self.selected {
            Some(id) => self.persona_index(id),
            None => None,
        }
    }

    /// Tells whether two sets of personas are alike.
    pub fn same_as(&self, other: &PersonaSettings) -> (same: bool)
        ensures
            same == self@.alike(other@),
    {
        if self.personas.len() != other.personas.len() {
            proof {
                assert(self@.personas.len() != other@.personas.len());
            }
            return false;
        }
        let mut index: usize = 0;
        while index < self.personas.len()
            invariant
                index <= self.personas.len(),
                self.personas.len() == other.personas.len(),
                forall|i: int|
                    0 <= i < index ==> (#[trigger] self@.personas[i]).alike(other@.personas[i]),
            decreases self.personas.len() - index,
        {
            proof {
                assert(self@.personas[index as int] == self.personas@[index as int]@);
                assert(other@.personas[index as int] == other.personas@[index as int]@);
            }
            if !self.personas[index].same_as(&other.personas[index]) {
                return false;
            }
            index = index + 1;
        }
        same_optional(&self.selected, &other.selected) && same_texts(
            &self.pending_deletions,
            &other.pending_deletions,
        )
    }

    /// Copies the settings.
    pub fn copy(&self) -> (copy: PersonaSettings)
        ensures
            copy@ == self@,
    {
        let mut personas: Vec<PersonaConfig> = Vec::new();
        let mut index: usize = 0;
        while index < self.personas.len()
            invariant
                index <= self.personas.len(),
                personas@ == self.personas@.take(index as int),
            decreases self.personas.len() - index,
        {
            personas.push(self.personas[index].clone());
            index = index + 1;
        }
        proof {
            assert(personas@ =~= self.personas@);
        }
        PersonaSettings {
            personas,
            selected: clone_optional(&self.selected),
            pending_deletions: copy_texts(&self.pending_deletions),
        }
    }

    /// Tells whether the memory of a persona still has to be cleared.
    pub fn awaits_deletion(&self, id: &String) -> (pending: bool)
        ensures
            pending == self@.pending_deletions.contains(id@),
    {
        contains_text(&self.pending_deletions, id)
    }

    /// The settings without a mark that the memory of a persona has to be cleared.
    pub open spec fn without_mark(data: PersonaSettingsData, id: Seq<char>) -> PersonaSettingsData {
        PersonaSettingsData {
            pending_deletions: without_text(data.pending_deletions, id),
            ..data
        }
    }

    /// Removes the mark that the memory of a persona has to be cleared, and tells whether
    /// there was one.
    pub fn remove_mark(&mut self, id: &String) -> (removed: bool)
        ensures
            final(self)@ == Self::without_mark(old(self)@, id@),
            removed == old(self)@.pending_deletions.contains(id@),
    {
        let previous: usize = self.pending_deletions.len();
        remove_text(&mut self.pending_deletions, id);
        proof {
            without_text_removes(old(self)@.pending_deletions, id@);
            assert(self@ =~= Self::without_mark(old(self)@, id@));
        }
        self.pending_deletions.len() != previous
    }
}

} // verus!
