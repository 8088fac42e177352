//! The list of a user's projects that were made from one template.

use vstd::prelude::*;
use crate::object_id::ObjectId;

verus! {

/// One entry of a project list.
#[derive(Debug, PartialEq, Eq)]
pub struct Project {
    pub project_id: ObjectId,
    pub name: String,
    pub template_link: String,
}

impl Clone for Project {
    fn clone(&self) -> (copy: Self)
        ensures
            copy == *self,
    {
        Project {
            project_id: self.project_id,
            name: self.name.clone(),
            template_link: self.template_link.clone(),
        }
    }
}

/// The projects of a user that were made from the template asked for.
#[derive(Debug)]
pub struct GetProjectsResponse {
    pub projects: Vec<Project>,
}

/// Those of `projects` that were made from `template_link`, in the order
/// they came in.
pub open spec fn made_from(projects: Seq<Project>, template_link: Seq<char>) -> Seq<Project>
    decreases projects.len(),
{
    if projects.len() == 0 {
        Seq::empty()
    } else if projects.last().template_link@ == template_link {
        made_from(projects.drop_last(), template_link).push(projects.last())
    } else {
        made_from(projects.drop_last(), template_link)
    }
}

/// Whatever was picked was among the projects and was made from the
/// template; and every project made from the template was picked.
pub proof fn lemma_made_from(projects: Seq<Project>, template_link: Seq<char>)
    ensures
        made_from(projects, template_link).len() <= projects.len(),
        forall|i: int|
            0 <= i < made_from(projects, template_link).len() ==> {
                &&& (#[trigger] made_from(projects, template_link)[i]).template_link@
                    == template_link
                &&& projects.contains(made_from(projects, template_link)[i])
            },
        forall|i: int|
            0 <= i < projects.len() && (#[trigger] projects[i]).template_link@ == template_link
                ==> made_from(projects, template_link).contains(projects[i]),
    decreases projects.len(),
{
    if projects.len() > 0 {
        let rest = projects.drop_last();
        lemma_made_from(rest, template_link);
        let picked = made_from(projects, template_link);
        let before = made_from(rest, template_link);
        assert forall|i: int| 0 <= i < picked.len() implies {
            &&& (#[trigger] picked[i]).template_link@ == template_link
            &&& projects.contains(picked[i])
        } by {
            if i < before.len() {
                assert(picked[i] == before[i]);
                assert(rest.contains(before[i]));
                let j = choose|j: int| 0 <= j < rest.len() && rest[j] == before[i];
                assert(projects[j] == picked[i]);
            } else {
                assert(picked[i] == projects.last());
                assert(projects[projects.len() - 1] == picked[i]);
            }
        }
        assert forall|i: int|
            0 <= i < projects.len() && (#[trigger] projects[i]).template_link@
                == template_link implies picked.contains(projects[i]) by {
            if i < rest.len() {
                assert(rest[i] == projects[i]);
                assert(before.contains(rest[i]));
                let j = choose|j: int| 0 <= j < before.len() && before[j] == rest[i];
                assert(picked[j] == projects[i]);
            } else {
                assert(picked[picked.len() - 1] == projects[i]);
            }
        }
    }
}

/// Picks, from the projects found for a user, those made from
/// `template_link`.
pub fn query_user_projects(found: &Vec<Project>, template_link: &str) -> (response:
    GetProjectsResponse)
    ensures
        response.projects@ == made_from(found@, template_link@),
{
    let wanted = template_link.to_owned();
    let mut projects: Vec<Project> = Vec::new();
    let mut i: usize = 0;
    proof {
        assert(found@.take(0) =~= Seq::<Project>::empty());
    }
    while i < found.len()
        invariant
            i <= found.len(),
            wanted@ == template_link@,
            projects@ == made_from(found@.take(i as int), template_link@),
        decreases found.len() - i,
    {
        proof {
            let next = found@.take(i + 1);
            assert(next.drop_last() =~= found@.take(i as int));
            assert(next.last() == found@[i as int]);
        }
        if found[i].template_link == wanted {
            projects.push(found[i].clone());
        }
        i += 1;
    }
    proof {
        assert(found@.take(found.len() as int) =~= found@);
    }
    GetProjectsResponse { projects }
}

} // verus!
