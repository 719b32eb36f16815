use project_tracker::add_project::{AddProjectForm, FormEvent, Msg as FormMsg};
use project_tracker::model::{Model, Msg, Scene, Update};
use project_tracker::project::Project;
use project_tracker::storage::{LoadError, MemoryStore, StorageOp};

fn person(first: &str, last: &str, description: &str) -> Project {
    Project {
        first_name: first.to_string(),
        last_name: last.to_string(),
        description: description.to_string(),
        ..Project::default()
    }
}

fn empty_model() -> Model {
    Model::create(Err(LoadError::KeyNotFound))
}

#[test]
fn model_starts_empty_when_the_key_is_missing() {
    let model = Model::create(Err(LoadError::KeyNotFound));
    assert_eq!(model.scene(), Scene::ProjectsList);
    assert!(model.projects().is_empty());
}

#[test]
fn model_starts_empty_when_the_entry_is_corrupt() {
    let model = Model::create(Err(LoadError::Corrupt));
    assert_eq!(model.scene(), Scene::ProjectsList);
    assert!(model.projects().is_empty());
}

#[test]
fn model_starts_with_the_loaded_collection() {
    let loaded = vec![person("Ada", "Lovelace", "lead"), person("Grace", "Hopper", "")];
    let model = Model::create(Ok(loaded.clone()));
    assert_eq!(model.scene(), Scene::ProjectsList);
    assert_eq!(model.projects(), &loaded);
}

#[test]
fn switch_to_sets_any_scene_and_reports_a_change() {
    let mut model = empty_model();
    for scene in [
        Scene::Settings,
        Scene::NewProjectForm,
        Scene::NewProjectForm,
        Scene::ProjectsList,
        Scene::Settings,
    ] {
        let update = model.update(Msg::SwitchTo(scene), false);
        assert_eq!(update, Update { changed: true, storage: StorageOp::Nothing });
        assert_eq!(model.scene(), scene);
    }
    assert_eq!(
        model.switch_to(Scene::ProjectsList),
        Update { changed: true, storage: StorageOp::Nothing }
    );
    assert_eq!(model.scene(), Scene::ProjectsList);
}

#[test]
fn added_projects_keep_their_order() {
    let mut model = empty_model();
    let p1 = person("Ada", "Lovelace", "lead");
    let p2 = person("Grace", "Hopper", "compiler");
    let first = model.update(Msg::AddProject(p1.clone()), false);
    assert_eq!(first, Update { changed: true, storage: StorageOp::Write(vec![p1.clone()]) });
    let second = model.update(Msg::AddProject(p2.clone()), false);
    assert_eq!(
        second,
        Update { changed: true, storage: StorageOp::Write(vec![p1.clone(), p2.clone()]) }
    );
    assert_eq!(model.projects(), &vec![p1, p2]);
}

#[test]
fn add_project_appends_to_a_loaded_collection() {
    let p1 = person("Ada", "Lovelace", "lead");
    let p2 = person("Grace", "Hopper", "compiler");
    let p3 = person("Alan", "Turing", "");
    let mut model = Model::create(Ok(vec![p1.clone(), p2.clone()]));
    let update = model.add_project(p3.clone());
    assert_eq!(
        update,
        Update { changed: true, storage: StorageOp::Write(vec![p1.clone(), p2.clone(), p3.clone()]) }
    );
    assert_eq!(model.projects(), &vec![p1, p2, p3]);
}

#[test]
fn the_same_project_may_be_added_twice() {
    let mut model = empty_model();
    let p = person("Ada", "Lovelace", "lead");
    model.add_project(p.clone());
    model.add_project(p.clone());
    assert_eq!(model.projects(), &vec![p.clone(), p]);
}

#[test]
fn add_project_reports_a_change_and_a_write_in_every_scene() {
    for scene in [Scene::ProjectsList, Scene::NewProjectForm, Scene::Settings] {
        let mut model = empty_model();
        model.switch_to(scene);
        let p = person("Ada", "Lovelace", "lead");
        let update = model.update(Msg::AddProject(p.clone()), false);
        assert_eq!(update, Update { changed: true, storage: StorageOp::Write(vec![p.clone()]) });
        assert_eq!(model.scene(), scene);
        assert_eq!(model.projects(), &vec![p]);
    }
}

#[test]
fn add_project_does_not_check_the_names() {
    let mut model = empty_model();
    let update = model.add_project(Project::default());
    assert_eq!(update.storage, StorageOp::Write(vec![Project::default()]));
    assert_eq!(model.projects().len(), 1);
}

#[test]
fn the_answer_counts_for_a_clear_only() {
    let mut model = empty_model();
    let p = person("Ada", "Lovelace", "lead");
    let update = model.update(Msg::AddProject(p.clone()), true);
    assert_eq!(update, Update { changed: true, storage: StorageOp::Write(vec![p.clone()]) });
    let update = model.update(Msg::SwitchTo(Scene::Settings), true);
    assert_eq!(update, Update { changed: true, storage: StorageOp::Nothing });
    assert_eq!(model.projects(), &vec![p]);
    assert!(Msg::ClearProjects.needs_confirmation());
    assert!(!Msg::SwitchTo(Scene::Settings).needs_confirmation());
    assert!(!Msg::AddProject(Project::default()).needs_confirmation());
}

#[test]
fn confirmed_clear_empties_memory_and_removes_the_key() {
    let p1 = person("Ada", "Lovelace", "lead");
    let p2 = person("Grace", "Hopper", "compiler");
    let mut store = MemoryStore::new();
    store.set(vec![p1, p2]);
    let mut model = Model::create(store.get());
    assert_eq!(model.projects().len(), 2);
    let update = model.update(Msg::ClearProjects, true);
    assert!(update.changed);
    assert_eq!(update.storage, StorageOp::Delete);
    store.apply(update.storage);
    assert!(model.projects().is_empty());
    assert!(!store.has_entry());
    assert_eq!(store.get(), Err(LoadError::KeyNotFound));
}

#[test]
fn declined_clear_changes_nothing() {
    let p1 = person("Ada", "Lovelace", "lead");
    let p2 = person("Grace", "Hopper", "compiler");
    let stored = vec![p1, p2];
    let mut store = MemoryStore::new();
    store.set(stored.clone());
    let mut model = Model::create(store.get());
    model.switch_to(Scene::Settings);
    let update = model.update(Msg::ClearProjects, false);
    assert_eq!(update, Update { changed: false, storage: StorageOp::Nothing });
    store.apply(update.storage);
    assert_eq!(model.projects(), &stored);
    assert_eq!(model.scene(), Scene::Settings);
    assert_eq!(store.get(), Ok(stored));
}

#[test]
fn clear_projects_on_an_empty_model_still_removes_the_key() {
    let mut model = empty_model();
    let update = model.clear_projects(true);
    assert_eq!(update, Update { changed: true, storage: StorageOp::Delete });
    assert!(model.projects().is_empty());
    let update = model.clear_projects(false);
    assert_eq!(update, Update { changed: false, storage: StorageOp::Nothing });
}

#[test]
fn abort_writes_nothing_to_the_store() {
    let stored = vec![person("Ada", "Lovelace", "lead")];
    let mut store = MemoryStore::new();
    store.set(stored.clone());
    let mut model = Model::create(store.get());
    model.switch_to(Scene::NewProjectForm);
    let mut form = AddProjectForm::create();
    form.update(FormMsg::UpdateFirstName("Grace".to_string()));
    form.update(FormMsg::UpdateLastName("Hopper".to_string()));
    let event = form.update(FormMsg::Abort).emitted.unwrap();
    assert_eq!(event, FormEvent::Abort);
    let update = model.finish_form(event);
    assert_eq!(update, Update { changed: true, storage: StorageOp::Nothing });
    store.apply(update.storage);
    assert_eq!(model.scene(), Scene::ProjectsList);
    assert_eq!(model.projects(), &stored);
    assert_eq!(store.get(), Ok(stored));
}

#[test]
fn abort_leaves_an_absent_key_absent() {
    let mut store = MemoryStore::new();
    let mut model = Model::create(store.get());
    model.switch_to(Scene::NewProjectForm);
    let update = model.finish_form(FormEvent::Abort);
    store.apply(update.storage);
    assert!(!store.has_entry());
    assert!(model.projects().is_empty());
}

#[test]
fn commit_appends_and_shows_the_list() {
    let p1 = person("Ada", "Lovelace", "lead");
    let p2 = person("Grace", "Hopper", "compiler");
    let mut model = Model::create(Ok(vec![p1.clone()]));
    model.switch_to(Scene::NewProjectForm);
    let update = model.finish_form(FormEvent::Commit(p2.clone()));
    assert_eq!(
        update,
        Update { changed: true, storage: StorageOp::Write(vec![p1.clone(), p2.clone()]) }
    );
    assert_eq!(model.scene(), Scene::ProjectsList);
    assert_eq!(model.projects(), &vec![p1, p2]);
}

#[test]
fn the_form_ends_on_the_list_whatever_the_scene_was() {
    for scene in [Scene::ProjectsList, Scene::NewProjectForm, Scene::Settings] {
        let mut model = empty_model();
        model.switch_to(scene);
        model.finish_form(FormEvent::Abort);
        assert_eq!(model.scene(), Scene::ProjectsList);
        model.switch_to(scene);
        model.finish_form(FormEvent::Commit(person("Ada", "Lovelace", "lead")));
        assert_eq!(model.scene(), Scene::ProjectsList);
        assert_eq!(model.projects().len(), 1);
    }
}

#[test]
fn the_store_follows_the_model_through_a_session() {
    let mut store = MemoryStore::new();
    let mut model = Model::create(store.get());
    let p1 = person("Ada", "Lovelace", "lead");
    let p2 = person("Grace", "Hopper", "compiler");
    for msg in [
        Msg::SwitchTo(Scene::NewProjectForm),
        Msg::AddProject(p1.clone()),
        Msg::SwitchTo(Scene::ProjectsList),
        Msg::AddProject(p2.clone()),
        Msg::SwitchTo(Scene::Settings),
    ] {
        let update = model.update(msg, false);
        store.apply(update.storage);
        assert_eq!(Model::create(store.get()).projects(), model.projects());
    }
    let restarted = Model::create(store.get());
    assert_eq!(restarted.projects(), &vec![p1, p2]);
    assert_eq!(restarted.scene(), Scene::ProjectsList);
}

#[test]
fn offered_moves_run_between_the_list_and_the_other_two() {
    let list = Scene::ProjectsList;
    let form = Scene::NewProjectForm;
    let settings = Scene::Settings;
    assert!(list.offers(&form));
    assert!(list.offers(&settings));
    assert!(form.offers(&list));
    assert!(settings.offers(&list));
    assert!(!form.offers(&settings));
    assert!(!settings.offers(&form));
    assert!(!list.offers(&list));
    assert!(!form.offers(&form));
    assert!(!settings.offers(&settings));
}
