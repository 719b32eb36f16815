//! The project record and its mathematical view.

use vstd::prelude::*;

verus! {

/// One tracked project: a person, a description and free-form status fields.
///
/// No field is constrained by another. The only rule, checked before a draft
/// is committed, is [`ProjectView::committable`].
#[derive(Debug, PartialEq, Eq)]
pub struct Project {
    /// The project's number.
    pub no: String,
    /// The project's title.
    pub ptitle: String,
    /// Who works on it.
    pub pma: String,
    /// The state it is in.
    pub pcondition: String,
    /// When it started.
    pub pstart: String,
    /// When it was last updated.
    pub plastupdate: String,
    /// The last report.
    pub preport: String,
    /// The report due at the next meeting.
    pub pnextreport: String,
    /// Remarks.
    pub pnotes: String,
    pub first_name: String,
    pub last_name: String,
    pub description: String,
}

/// What a [`Project`] holds, field by field, as sequences of characters.
pub ghost struct ProjectView {
    pub no: Seq<char>,
    pub ptitle: Seq<char>,
    pub pma: Seq<char>,
    pub pcondition: Seq<char>,
    pub pstart: Seq<char>,
    pub plastupdate: Seq<char>,
    pub preport: Seq<char>,
    pub pnextreport: Seq<char>,
    pub pnotes: Seq<char>,
    pub first_name: Seq<char>,
    pub last_name: Seq<char>,
    pub description: Seq<char>,
}

impl ProjectView {
    /// The record with every field empty.
    pub open spec fn blank() -> ProjectView {
        ProjectView {
            no: Seq::empty(),
            ptitle: Seq::empty(),
            pma: Seq::empty(),
            pcondition: Seq::empty(),
            pstart: Seq::empty(),
            plastupdate: Seq::empty(),
            preport: Seq::empty(),
            pnextreport: Seq::empty(),
            pnotes: Seq::empty(),
            first_name: Seq::empty(),
            last_name: Seq::empty(),
            description: Seq::empty(),
        }
    }

    /// A record may join the collection once both names are given.
    pub open spec fn committable(self) -> bool {
        self.first_name.len() > 0 && self.last_name.len() > 0
    }
}

impl View for Project {
    type V = ProjectView;

    open spec fn view(&self) -> ProjectView {
        ProjectView {
            no: self.no@,
            ptitle: self.ptitle@,
            pma: self.pma@,
            pcondition: self.pcondition@,
            pstart: self.pstart@,
            plastupdate: self.plastupdate@,
            preport: self.preport@,
            pnextreport: self.pnextreport@,
            pnotes: self.pnotes@,
            first_name: self.first_name@,
            last_name: self.last_name@,
            description: self.description@,
        }
    }
}

impl DeepView for Project {
    type V = ProjectView;

    open spec fn deep_view(&self) -> ProjectView {
        self@
    }
}

impl Project {
    /// Whether both names are non-empty.
    pub fn is_committable(&self) -> (ok: bool)
        ensures
            ok == self@.committable(),
    {
        !self.first_name.as_str().is_empty() && !self.last_name.as_str().is_empty()
    }
}

impl Default for Project {
    /// The blank record: every field is the empty string.
    fn default() -> (blank: Project)
        ensures
            blank@ == ProjectView::blank(),
    {
        Project {
            no: String::new(),
            ptitle: String::new(),
            pma: String::new(),
            pcondition: String::new(),
            pstart: String::new(),
            plastupdate: String::new(),
            preport: String::new(),
            pnextreport: String::new(),
            pnotes: String::new(),
            first_name: String::new(),
            last_name: String::new(),
            description: String::new(),
        }
    }
}

impl Clone for Project {
    /// A copy that holds the same text in every field.
    fn clone(&self) -> (copy: Project)
        ensures
            copy@ == self@,
    {
        Project {
            no: self.no.clone(),
            ptitle: self.ptitle.clone(),
            pma: self.pma.clone(),
            pcondition: self.pcondition.clone(),
            pstart: self.pstart.clone(),
            plastupdate: self.plastupdate.clone(),
            preport: self.preport.clone(),
            pnextreport: self.pnextreport.clone(),
            pnotes: self.pnotes.clone(),
            first_name: self.first_name.clone(),
            last_name: self.last_name.clone(),
            description: self.description.clone(),
        }
    }
}

/// Copies a collection, record by record and in order.
pub fn clone_projects(projects: &Vec<Project>) -> (copy: Vec<Project>)
    ensures
        copy.deep_view() == projects.deep_view(),
{
    let mut copy: Vec<Project> = Vec::new();
    let mut i: usize = 0;
    while i < projects.len()
        invariant
            i <= projects.len(),
            copy.len() == i,
            forall|k: int| 0 <= k < i ==> copy[k]@ == projects[k]@,
        decreases projects.len() - i,
    {
        copy.push(projects[i].clone());
        i += 1;
    }
    copy
}

} // verus!
