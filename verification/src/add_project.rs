//! The form that collects a new project.
//!
//! The form owns one draft. Field updates replace one field of it and are
//! never rejected. The draft leaves the form only through a commit, and a
//! commit is possible only while both names are non-empty.

use vstd::prelude::*;
use crate::project::{Project, ProjectView};

verus! {

/// What can happen to the form.
#[derive(Debug, PartialEq, Eq)]
pub enum Msg {
    UpdateFirstName(String),
    UpdateLastName(String),
    UpdateDescription(String),
    /// The user asks to commit the draft.
    Add,
    /// The user leaves the form.
    Abort,
}

/// A [`Msg`] with its text as a sequence of characters.
pub ghost enum MsgView {
    UpdateFirstName(Seq<char>),
    UpdateLastName(Seq<char>),
    UpdateDescription(Seq<char>),
    Add,
    Abort,
}

impl View for Msg {
    type V = MsgView;

    open spec fn view(&self) -> MsgView {
        match self {
            Msg::UpdateFirstName(value) => MsgView::UpdateFirstName(value@),
            Msg::UpdateLastName(value) => MsgView::UpdateLastName(value@),
            Msg::UpdateDescription(value) => MsgView::UpdateDescription(value@),
            Msg::Add => MsgView::Add,
            Msg::Abort => MsgView::Abort,
        }
    }
}

/// What the form reports to its owner.
#[derive(Debug, PartialEq, Eq)]
pub enum FormEvent {
    /// The finished draft, handed over by value.
    Commit(Project),
    /// The form was left without a commit.
    Abort,
}

/// A [`FormEvent`] with the committed draft as a record view.
pub ghost enum FormEventView {
    Commit(ProjectView),
    Abort,
}

impl View for FormEvent {
    type V = FormEventView;

    open spec fn view(&self) -> FormEventView {
        match self {
            FormEvent::Commit(project) => FormEventView::Commit(project@),
            FormEvent::Abort => FormEventView::Abort,
        }
    }
}

/// The result of one form update.
#[derive(Debug, PartialEq, Eq)]
pub struct FormUpdate {
    /// Whether the form has to be drawn again.
    pub changed: bool,
    /// What the owner is told, if anything.
    pub emitted: Option<FormEvent>,
}

/// A [`FormUpdate`] with what it emitted as a view.
pub ghost struct FormUpdateView {
    pub changed: bool,
    pub emitted: Option<FormEventView>,
}

impl View for FormUpdate {
    type V = FormUpdateView;

    open spec fn view(&self) -> FormUpdateView {
        FormUpdateView {
            changed: self.changed,
            emitted: match self.emitted {
                Some(event) => Some(event@),
                None => None,
            },
        }
    }
}

/// The draft after `msg`.
///
/// A field update replaces that field. A commit of a committable draft
/// leaves a blank draft behind. Everything else leaves the draft alone.
pub open spec fn draft_after(draft: ProjectView, msg: MsgView) -> ProjectView {
    match msg {
        MsgView::UpdateFirstName(value) => ProjectView { first_name: value, ..draft },
        MsgView::UpdateLastName(value) => ProjectView { last_name: value, ..draft },
        MsgView::UpdateDescription(value) => ProjectView { description: value, ..draft },
        MsgView::Add => if draft.committable() {
            ProjectView::blank()
        } else {
            draft
        },
        MsgView::Abort => draft,
    }
}

/// What `msg` makes the form report while it holds `draft`.
///
/// A field update asks for a redraw and reports nothing. A commit of a
/// committable draft asks for a redraw and hands the draft over; on any other
/// draft it does neither. An abort reports itself and asks for no redraw.
pub open spec fn update_of(draft: ProjectView, msg: MsgView) -> FormUpdateView {
    match msg {
        MsgView::UpdateFirstName(_) => FormUpdateView { changed: true, emitted: None },
        MsgView::UpdateLastName(_) => FormUpdateView { changed: true, emitted: None },
        MsgView::UpdateDescription(_) => FormUpdateView { changed: true, emitted: None },
        MsgView::Add => if draft.committable() {
            FormUpdateView { changed: true, emitted: Some(FormEventView::Commit(draft)) }
        } else {
            FormUpdateView { changed: false, emitted: None }
        },
        MsgView::Abort => FormUpdateView { changed: false, emitted: Some(FormEventView::Abort) },
    }
}

/// The form's state: the draft being edited. The view of a form is the view
/// of its draft.
#[derive(Debug)]
pub struct AddProjectForm {
    project: Project,
}

impl View for AddProjectForm {
    type V = ProjectView;

    closed spec fn view(&self) -> ProjectView {
        self.project@
    }
}

impl AddProjectForm {
    /// A form with a blank draft.
    pub fn create() -> (form: AddProjectForm)
        ensures
            form@ == ProjectView::blank(),
    {
        AddProjectForm { project: Project::default() }
    }

    /// The draft as it stands.
    pub fn draft(&self) -> (draft: &Project)
        ensures
            draft@ == self@,
    {
        &self.project
    }

    /// Whether the commit action is available: both names are non-empty.
    pub fn can_submit(&self) -> (ok: bool)
        ensures
            ok == self@.committable(),
    {
        self.project.is_committable()
    }

    /// Replaces the draft's first name. Any string is accepted.
    pub fn set_first_name(&mut self, value: String) -> (update: FormUpdate)
        ensures
            final(self)@ == (ProjectView { first_name: value@, ..old(self)@ }),
            update@ == (FormUpdateView { changed: true, emitted: None }),
    {
        self.project.first_name = value;
        FormUpdate { changed: true, emitted: None }
    }

    /// Replaces the draft's last name. Any string is accepted.
    pub fn set_last_name(&mut self, value: String) -> (update: FormUpdate)
        ensures
            final(self)@ == (ProjectView { last_name: value@, ..old(self)@ }),
            update@ == (FormUpdateView { changed: true, emitted: None }),
    {
        self.project.last_name = value;
        FormUpdate { changed: true, emitted: None }
    }

    /// Replaces the draft's description. Any string is accepted.
    pub fn set_description(&mut self, value: String) -> (update: FormUpdate)
        ensures
            final(self)@ == (ProjectView { description: value@, ..old(self)@ }),
            update@ == (FormUpdateView { changed: true, emitted: None }),
    {
        self.project.description = value;
        FormUpdate { changed: true, emitted: None }
    }

    /// Hands the draft over to the owner and starts a blank one.
    ///
    /// This is the commit action, which is available only while
    /// [`Self::can_submit`] holds. [`Self::update`] tests that first.
    pub fn submit(&mut self) -> (update: FormUpdate)
        requires
            old(self)@.committable(),
        ensures
            final(self)@ == ProjectView::blank(),
            update@ == (FormUpdateView {
                changed: true,
                emitted: Some(FormEventView::Commit(old(self)@)),
            }),
    {
        let mut draft = Project::default();
        core::mem::swap(&mut self.project, &mut draft);
        FormUpdate { changed: true, emitted: Some(FormEvent::Commit(draft)) }
    }

    /// Leaves the form. The draft stays as it is, and nothing has to be
    /// drawn again: the owner drops the form.
    pub fn abort(&self) -> (update: FormUpdate)
        ensures
            update@ == (FormUpdateView { changed: false, emitted: Some(FormEventView::Abort) }),
    {
        FormUpdate { changed: false, emitted: Some(FormEvent::Abort) }
    }

    /// Handles one message.
    ///
    /// A commit is carried out only where [`Self::can_submit`] holds. On any
    /// other draft `Msg::Add` reports nothing and changes nothing.
    pub fn update(&mut self, msg: Msg) -> (update: FormUpdate)
        ensures
            final(self)@ == draft_after(old(self)@, msg@),
            update@ == update_of(old(self)@, msg@),
    {
        match msg {
            Msg::UpdateFirstName(value) => self.set_first_name(value),
            Msg::UpdateLastName(value) => self.set_last_name(value),
            Msg::UpdateDescription(value) => self.set_description(value),
            Msg::Add => {
                if self.can_submit() {
                    self.submit()
                } else {
                    FormUpdate { changed: false, emitted: None }
                }
            },
            Msg::Abort => self.abort(),
        }
    }
}

/// The commit gate: a draft is handed over exactly when the commit is asked
/// for while both names are non-empty, and what is handed over is then the
/// draft as it stood. While a name is empty, no message commits anything.
pub proof fn lemma_commit_gate(draft: ProjectView, msg: MsgView)
    ensures
        update_of(draft, msg).emitted matches Some(FormEventView::Commit(project)) ==> {
            &&& msg is Add
            &&& draft.first_name.len() > 0
            &&& draft.last_name.len() > 0
            &&& project == draft
        },
        msg is Add && draft.first_name.len() > 0 && draft.last_name.len() > 0 ==> update_of(
            draft,
            msg,
        ).emitted == Some(FormEventView::Commit(draft)),
        draft.first_name.len() == 0 || draft.last_name.len() == 0 ==> !(update_of(
            draft,
            msg,
        ).emitted matches Some(FormEventView::Commit(_))),
{
}

} // verus!
