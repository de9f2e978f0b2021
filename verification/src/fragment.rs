//! Fragments: pieces of context that stand in the conversation as text between two markers.

use crate::protocol::{is_input_text, ContentItem, ResponseItem};
use crate::text::{is_marked, text_is_marked};
use vstd::prelude::*;

verus! {

/// A kind of fragment, known by the markers at its ends.
pub trait FragmentMarkers {
    /// What a fragment of this kind starts with.
    spec fn start_marker_view() -> Seq<char>;

    /// What a fragment of this kind ends with.
    spec fn end_marker_view() -> Seq<char>;

    /// What a fragment of this kind starts with.
    fn start_marker() -> (marker: &'static str)
        ensures
            marker@ == Self::start_marker_view(),
    ;

    /// What a fragment of this kind ends with.
    fn end_marker() -> (marker: &'static str)
        ensures
            marker@ == Self::end_marker_view(),
    ;

    /// Whether the text is a fragment of this kind; see [`is_marked`].
    fn matches_text(text: &str) -> (matches: bool)
        ensures
            matches == is_marked(text@, Self::start_marker_view(), Self::end_marker_view()),
    {
        text_is_marked(text, Self::start_marker(), Self::end_marker())
    }
}

/// A fragment that can be put into the conversation.
pub trait ContextualUserFragment: FragmentMarkers + Sized {
    /// The role under which the fragment stands in the conversation.
    spec fn role_view() -> Seq<char>;

    /// The text between the markers.
    spec fn body_view(&self) -> Seq<char>;

    /// The text, markers and all, shows what the fragment holds.
    spec fn reads_back_from(&self, text: Seq<char>) -> bool;

    /// The role under which the fragment stands in the conversation.
    fn role() -> (role: &'static str)
        ensures
            role@ == Self::role_view(),
    ;

    /// The text between the markers.
    fn body(&self) -> (body: String)
        ensures
            body@ == self.body_view(),
            self.reads_back_from(
                Self::start_marker_view() + self.body_view() + Self::end_marker_view(),
            ),
    ;

    /// The text of the fragment, markers and all.
    fn render(&self) -> (text: String)
        ensures
            text@ == Self::start_marker_view() + self.body_view() + Self::end_marker_view(),
            self.reads_back_from(text@),
    {
        let mut text: String = Self::start_marker().to_owned();
        text.append(self.body().as_str());
        text.append(Self::end_marker());
        text
    }

    /// The fragment as a message of the conversation.
    fn into(self) -> (item: ResponseItem)
        ensures
            item matches ResponseItem::Message { id, role, content, phase } && id is None
                && role@ == Self::role_view() && phase is None && is_input_text(
                content@,
                Self::start_marker_view() + self.body_view() + Self::end_marker_view(),
            ),
            self.reads_back_from(
                Self::start_marker_view() + self.body_view() + Self::end_marker_view(),
            ),
    {
        let text = self.render();
        let mut content: Vec<ContentItem> = Vec::new();
        content.push(ContentItem::InputText { text });
        ResponseItem::Message { id: None, role: Self::role().to_owned(), content, phase: None }
    }
}

/// The text of a fragment, markers and all.
pub open spec fn rendered<F: ContextualUserFragment>(fragment: F) -> Seq<char> {
    F::start_marker_view() + fragment.body_view() + F::end_marker_view()
}

/// The instructions of an `AGENTS.md` file.
pub struct UserInstructions;

impl FragmentMarkers for UserInstructions {
    open spec fn start_marker_view() -> Seq<char> {
        "# AGENTS.md instructions for "@
    }

    open spec fn end_marker_view() -> Seq<char> {
        "</INSTRUCTIONS>"@
    }

    fn start_marker() -> (marker: &'static str) {
        "# AGENTS.md instructions for "
    }

    fn end_marker() -> (marker: &'static str) {
        "</INSTRUCTIONS>"
    }
}

/// What the model is told of its surroundings.
pub struct EnvironmentContext;

impl FragmentMarkers for EnvironmentContext {
    open spec fn start_marker_view() -> Seq<char> {
        "<environment_context>"@
    }

    open spec fn end_marker_view() -> Seq<char> {
        "</environment_context>"@
    }

    fn start_marker() -> (marker: &'static str) {
        "<environment_context>"
    }

    fn end_marker() -> (marker: &'static str) {
        "</environment_context>"
    }
}

/// The instructions of a skill.
pub struct SkillInstructions;

impl FragmentMarkers for SkillInstructions {
    open spec fn start_marker_view() -> Seq<char> {
        "<skill>"@
    }

    open spec fn end_marker_view() -> Seq<char> {
        "</skill>"@
    }

    fn start_marker() -> (marker: &'static str) {
        "<skill>"
    }

    fn end_marker() -> (marker: &'static str) {
        "</skill>"
    }
}

/// The news that a sub-agent has changed its state.
pub struct SubagentNotification;

impl FragmentMarkers for SubagentNotification {
    open spec fn start_marker_view() -> Seq<char> {
        "<subagent_notification>"@
    }

    open spec fn end_marker_view() -> Seq<char> {
        "</subagent_notification>"@
    }

    fn start_marker() -> (marker: &'static str) {
        "<subagent_notification>"
    }

    fn end_marker() -> (marker: &'static str) {
        "</subagent_notification>"
    }
}

} // verus!
