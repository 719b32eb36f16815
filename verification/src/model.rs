//! The application model: the collection of projects and the active scene.
//!
//! The model decides; its owner acts. Every operation returns an [`Update`]
//! that says whether anything changed and what has to happen to the stored
//! entry. The collection is persisted as a whole after each change: an added
//! project overwrites the entry with the new collection, a confirmed clear
//! removes the key.

use vstd::prelude::*;
use crate::add_project::{FormEvent, FormEventView};
use crate::project::{clone_projects, Project, ProjectView};
use crate::storage::{loaded_view, read, LoadError, StorageOp, StorageOpView};

verus! {

/// The view that is on screen. Exactly one is active at a time.
#[derive(Debug, Clone, Copy, PartialEq, Eq, Structural)]
pub enum Scene {
    ProjectsList,
    NewProjectForm,
    Settings,
}

impl Scene {
    /// The moves that the application offers: from the list to the form or
    /// to the settings, and from either of them back to the list. The form
    /// and the settings do not lead to each other, and no scene leads to
    /// itself.
    pub open spec fn leads_to(self, next: Scene) -> bool {
        match (self, next) {
            (Scene::ProjectsList, Scene::NewProjectForm) => true,
            (Scene::ProjectsList, Scene::Settings) => true,
            (Scene::NewProjectForm, Scene::ProjectsList) => true,
            (Scene::Settings, Scene::ProjectsList) => true,
            _ => false,
        }
    }

    /// Whether the application offers the move from this scene to `next`.
    pub fn offers(&self, next: &Scene) -> (offered: bool)
        ensures
            offered == self.leads_to(*next),
    {
        let from_list = matches!(self, Scene::ProjectsList);
        let to_list = matches!(next, Scene::ProjectsList);
        from_list != to_list
    }
}

/// What can happen to the model.
#[derive(Debug, PartialEq, Eq)]
pub enum Msg {
    SwitchTo(Scene),
    AddProject(Project),
    ClearProjects,
}

/// A [`Msg`] with the project it carries as a record view.
pub ghost enum MsgView {
    SwitchTo(Scene),
    AddProject(ProjectView),
    ClearProjects,
}

impl View for Msg {
    type V = MsgView;

    open spec fn view(&self) -> MsgView {
        match self {
            Msg::SwitchTo(scene) => MsgView::SwitchTo(*scene),
            Msg::AddProject(project) => MsgView::AddProject(project@),
            Msg::ClearProjects => MsgView::ClearProjects,
        }
    }
}

impl Msg {
    /// Whether the user has to confirm before the message is handled.
    pub fn needs_confirmation(&self) -> (needed: bool)
        ensures
            needed == (self@ is ClearProjects),
    {
        match self {
            Msg::ClearProjects => true,
            _ => false,
        }
    }
}

/// The result of one model update.
#[derive(Debug, PartialEq, Eq)]
pub struct Update {
    /// Whether the state changed, so that the scene has to be drawn again.
    pub changed: bool,
    /// What the owner has to do to the stored entry.
    pub storage: StorageOp,
}

/// An [`Update`] with its storage operation as a view.
pub ghost struct UpdateView {
    pub changed: bool,
    pub storage: StorageOpView,
}

impl View for Update {
    type V = UpdateView;

    open spec fn view(&self) -> UpdateView {
        UpdateView { changed: self.changed, storage: self.storage@ }
    }
}

/// The model as a value: the projects in insertion order, and the scene.
pub ghost struct ModelView {
    pub projects: Seq<ProjectView>,
    pub scene: Scene,
}

impl ModelView {
    /// The model at start-up. A failed load of either kind gives the empty
    /// collection. The first scene is the list.
    pub open spec fn initial(loaded: Result<Seq<ProjectView>, LoadError>) -> ModelView {
        ModelView {
            projects: match loaded {
                Ok(collection) => collection,
                Err(_) => Seq::empty(),
            },
            scene: Scene::ProjectsList,
        }
    }

    /// The model with `scene` active and the collection untouched.
    pub open spec fn switch_to(self, scene: Scene) -> ModelView {
        ModelView { scene, ..self }
    }

    /// The model with `project` appended at the end of the collection.
    pub open spec fn add_project(self, project: ProjectView) -> ModelView {
        ModelView { projects: self.projects.push(project), ..self }
    }

    /// The model with an empty collection if `confirmed`, and the model
    /// itself if not.
    pub open spec fn clear_projects(self, confirmed: bool) -> ModelView {
        if confirmed {
            ModelView { projects: Seq::empty(), ..self }
        } else {
            self
        }
    }

    /// The model after the form has reported `event`: a committed draft is
    /// appended, and in either case the list is shown again.
    pub open spec fn finish_form(self, event: FormEventView) -> ModelView {
        match event {
            FormEventView::Commit(project) => self.add_project(project).switch_to(
                Scene::ProjectsList,
            ),
            FormEventView::Abort => self.switch_to(Scene::ProjectsList),
        }
    }

    /// The model after `msg`. `confirmed` is the user's answer and counts
    /// for `ClearProjects` only.
    pub open spec fn after(self, msg: MsgView, confirmed: bool) -> ModelView {
        match msg {
            MsgView::SwitchTo(scene) => self.switch_to(scene),
            MsgView::AddProject(project) => self.add_project(project),
            MsgView::ClearProjects => self.clear_projects(confirmed),
        }
    }

    /// What handling `msg` reports.
    ///
    /// A switch changes the state and leaves the entry alone. An added
    /// project changes the state, whatever the scene, and overwrites the
    /// entry with the collection that includes it. A clear changes the state
    /// and removes the key if it was confirmed, and does neither if not.
    pub open spec fn update_of(self, msg: MsgView, confirmed: bool) -> UpdateView {
        match msg {
            MsgView::SwitchTo(_) => UpdateView { changed: true, storage: StorageOpView::Nothing },
            MsgView::AddProject(project) => UpdateView {
                changed: true,
                storage: StorageOpView::Write(self.projects.push(project)),
            },
            MsgView::ClearProjects => if confirmed {
                UpdateView { changed: true, storage: StorageOpView::Delete }
            } else {
                UpdateView { changed: false, storage: StorageOpView::Nothing }
            },
        }
    }

    /// What handling the form's `event` reports.
    pub open spec fn form_update_of(self, event: FormEventView) -> UpdateView {
        match event {
            FormEventView::Commit(project) => UpdateView {
                changed: true,
                storage: StorageOpView::Write(self.projects.push(project)),
            },
            FormEventView::Abort => UpdateView { changed: true, storage: StorageOpView::Nothing },
        }
    }

    /// The entry holds what the model holds: the same collection, or no key
    /// while the collection is empty.
    pub open spec fn persisted_in(self, entry: Option<Seq<ProjectView>>) -> bool {
        match entry {
            Some(collection) => collection == self.projects,
            None => self.projects.len() == 0,
        }
    }
}

/// The application's state.
#[derive(Debug)]
pub struct Model {
    projects: Vec<Project>,
    scene: Scene,
}

impl View for Model {
    type V = ModelView;

    closed spec fn view(&self) -> ModelView {
        ModelView { projects: self.projects.deep_view(), scene: self.scene }
    }
}

impl Model {
    /// Starts the model from what the store gave. A failed load is no
    /// error: the model then starts empty.
    pub fn create(loaded: Result<Vec<Project>, LoadError>) -> (model: Model)
        ensures
            model@ == ModelView::initial(loaded_view(loaded)),
    {
        let projects = match loaded {
            Ok(collection) => collection,
            Err(_) => Vec::new(),
        };
        let model = Model { projects, scene: Scene::ProjectsList };
        assert(loaded is Err ==> model@.projects =~= Seq::empty());
        model
    }

    /// The active scene.
    pub fn scene(&self) -> (scene: Scene)
        ensures
            scene == self@.scene,
    {
        self.scene
    }

    /// The projects, in the order in which they were added.
    pub fn projects(&self) -> (projects: &Vec<Project>)
        ensures
            projects.deep_view() == self@.projects,
    {
        &self.projects
    }

    /// Makes `scene` the active scene, whatever the scene was.
    pub fn switch_to(&mut self, scene: Scene) -> (update: Update)
        ensures
            final(self)@ == old(self)@.switch_to(scene),
            update@ == (UpdateView { changed: true, storage: StorageOpView::Nothing }),
    {
        self.scene = scene;
        Update { changed: true, storage: StorageOp::Nothing }
    }

    /// Appends `project` and asks for the whole collection to be written.
    pub fn add_project(&mut self, project: Project) -> (update: Update)
        ensures
            final(self)@ == old(self)@.add_project(project@),
            update@ == (UpdateView {
                changed: true,
                storage: StorageOpView::Write(old(self)@.projects.push(project@)),
            }),
    {
        self.projects.push(project);
        assert(self.projects.deep_view() =~= old(self).projects.deep_view().push(project@));
        let snapshot = clone_projects(&self.projects);
        Update { changed: true, storage: StorageOp::Write(snapshot) }
    }

    /// Empties the collection and asks for the key to be removed, if the
    /// user confirmed. If not, nothing happens.
    pub fn clear_projects(&mut self, confirmed: bool) -> (update: Update)
        ensures
            final(self)@ == old(self)@.clear_projects(confirmed),
            update@ == old(self)@.update_of(MsgView::ClearProjects, confirmed),
    {
        if confirmed {
            self.projects.clear();
            assert(self.projects.deep_view() =~= Seq::empty());
            Update { changed: true, storage: StorageOp::Delete }
        } else {
            Update { changed: false, storage: StorageOp::Nothing }
        }
    }

    /// Takes what the form reported: appends a committed draft, and shows
    /// the list again.
    pub fn finish_form(&mut self, event: FormEvent) -> (update: Update)
        ensures
            final(self)@ == old(self)@.finish_form(event@),
            update@ == old(self)@.form_update_of(event@),
    {
        match event {
            FormEvent::Commit(project) => {
                let update = self.add_project(project);
                self.scene = Scene::ProjectsList;
                update
            },
            FormEvent::Abort => self.switch_to(Scene::ProjectsList),
        }
    }

    /// Handles one message. `confirmed` is the user's answer to the
    /// confirmation prompt; it is read for `Msg::ClearProjects` only.
    pub fn update(&mut self, msg: Msg, confirmed: bool) -> (update: Update)
        ensures
            final(self)@ == old(self)@.after(msg@, confirmed),
            update@ == old(self)@.update_of(msg@, confirmed),
    {
        match msg {
            Msg::SwitchTo(scene) => self.switch_to(scene),
            Msg::AddProject(project) => self.add_project(project),
            Msg::ClearProjects => self.clear_projects(confirmed),
        }
    }
}

/// Two projects added to an empty collection make up the collection, the
/// first one first, and the last write holds exactly the two.
pub proof fn lemma_append_order(
    start: ModelView,
    first: ProjectView,
    second: ProjectView,
    entry: Option<Seq<ProjectView>>,
)
    requires
        start.projects.len() == 0,
    ensures
        start.add_project(first).add_project(second).projects == seq![first, second],
        start.add_project(first).update_of(MsgView::AddProject(second), false).storage.apply(entry)
            == Some(seq![first, second]),
{
}

/// Leaving the form without a commit writes nothing: the form reports the
/// abort and keeps its draft, and the model asks for no storage operation
/// and keeps its collection.
pub proof fn lemma_abort_writes_nothing(
    draft: ProjectView,
    model: ModelView,
    entry: Option<Seq<ProjectView>>,
)
    ensures
        crate::add_project::draft_after(draft, crate::add_project::MsgView::Abort) == draft,
        crate::add_project::update_of(draft, crate::add_project::MsgView::Abort).emitted == Some(
            FormEventView::Abort,
        ),
        model.form_update_of(FormEventView::Abort).storage == StorageOpView::Nothing,
        model.form_update_of(FormEventView::Abort).storage.apply(entry) == entry,
        model.finish_form(FormEventView::Abort).projects == model.projects,
{
}

/// A confirmed clear empties the collection and removes the key, whatever
/// was stored, and leaves the scene alone.
pub proof fn lemma_confirmed_clear(model: ModelView, entry: Option<Seq<ProjectView>>)
    ensures
        model.after(MsgView::ClearProjects, true).projects == Seq::<ProjectView>::empty(),
        model.after(MsgView::ClearProjects, true).scene == model.scene,
        model.update_of(MsgView::ClearProjects, true).storage.apply(entry) is None,
{
}

/// A declined clear changes neither the model nor the stored entry, and
/// reports no change.
pub proof fn lemma_declined_clear(model: ModelView, entry: Option<Seq<ProjectView>>)
    ensures
        model.after(MsgView::ClearProjects, false) == model,
        model.update_of(MsgView::ClearProjects, false).storage.apply(entry) == entry,
        !model.update_of(MsgView::ClearProjects, false).changed,
{
}

/// A model started from an entry is persisted in it.
pub proof fn lemma_initial_is_persisted(entry: Option<Seq<ProjectView>>)
    ensures
        ModelView::initial(read(entry)).persisted_in(entry),
{
}

/// Carrying out what each update asks for keeps the entry in step with the
/// model.
pub proof fn lemma_update_keeps_persisted(
    model: ModelView,
    entry: Option<Seq<ProjectView>>,
    msg: MsgView,
    confirmed: bool,
)
    requires
        model.persisted_in(entry),
    ensures
        model.after(msg, confirmed).persisted_in(
            model.update_of(msg, confirmed).storage.apply(entry),
        ),
{
}

/// The same holds of what the form reports.
pub proof fn lemma_form_keeps_persisted(
    model: ModelView,
    entry: Option<Seq<ProjectView>>,
    event: FormEventView,
)
    requires
        model.persisted_in(entry),
    ensures
        model.finish_form(event).persisted_in(model.form_update_of(event).storage.apply(entry)),
{
}

/// A model started anew from an entry that is in step with a model holds
/// that model's collection.
pub proof fn lemma_reload_restores(model: ModelView, entry: Option<Seq<ProjectView>>)
    requires
        model.persisted_in(entry),
    ensures
        ModelView::initial(read(entry)).projects == model.projects,
{
}

/// When the form ends, the list is shown, and from the form that is a move
/// the application offers. A commit is the same as adding the project and
/// then switching to the list.
pub proof fn lemma_form_returns_to_list(model: ModelView, event: FormEventView)
    ensures
        model.finish_form(event).scene == Scene::ProjectsList,
        model.scene == Scene::NewProjectForm ==> model.scene.leads_to(
            model.finish_form(event).scene,
        ),
        event matches FormEventView::Commit(project) ==> model.finish_form(event) == model.after(
            MsgView::AddProject(project),
            false,
        ).after(MsgView::SwitchTo(Scene::ProjectsList), false),
{
}

} // verus!
