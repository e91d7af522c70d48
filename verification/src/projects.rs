//! Projects and groups of projects.

use vstd::prelude::*;
use vstd::string::*;
use crate::client::{fetched, outcome, Client};
use crate::error::Error;
use crate::json::{document, lemma_view_of_parts, member, members_view, Json, JsonTree};
use crate::text::{decimal, digits, percent_encoded};
use crate::time::{clock, Timestamp, TimestampView};
use crate::wire::{
    absent, encode_option, encoded_option, entry, lemma_array_in_order, lemma_optional_at,
    lemma_required_at, lemma_required_sound, optional, read_optional, read_required, required,
    Wire,
};

verus! {

/// How many projects a listing asks for.
pub const DEFAULT_PROJ_LIMIT: i32 = 100;

/// Represents a project type in the storyboard API
#[derive(Clone, Debug, PartialEq, Eq)]
pub struct Project {
    /// Means that storyboard will try to create branches automatically
    pub autocreate_branch: Option<bool>,
    /// Details about the project.
    pub description: Option<String>,
    /// Tells if the project is active or has been deleted.
    pub is_active: bool,
    /// The project unique name.
    pub name: String,
    /// The repo link to the project.
    pub repo_url: Option<String>,
}

/// The mathematical value of a [`Project`].
pub struct ProjectView {
    pub autocreate_branch: Option<bool>,
    pub description: Option<Seq<char>>,
    pub is_active: bool,
    pub name: Seq<char>,
    pub repo_url: Option<Seq<char>>,
}

impl DeepView for Project {
    type V = ProjectView;

    open spec fn deep_view(&self) -> ProjectView {
        ProjectView {
            autocreate_branch: self.autocreate_branch,
            description: self.description.deep_view(),
            is_active: self.is_active,
            name: self.name@,
            repo_url: self.repo_url.deep_view(),
        }
    }
}

/// The lengths of the names of the members, and that no two names of one
/// length are the same.
proof fn lemma_project_names()
    ensures
        "autocreate_branch"@.len() == 17,
        "description"@.len() == 11,
        "is_active"@.len() == 9,
        "name"@.len() == 4,
        "repo_url"@.len() == 8,
{
    reveal_strlit("autocreate_branch");
    reveal_strlit("description");
    reveal_strlit("is_active");
    reveal_strlit("name");
    reveal_strlit("repo_url");
}

/// An object with the members `is_active` and `name`; `autocreate_branch`,
/// `description` and `repo_url` may be left out or `null`.
impl Wire for Project {
    open spec fn decoded(tree: JsonTree) -> Option<ProjectView> {
        match tree {
            JsonTree::Object(members) => {
                let autocreate_branch = optional::<bool>(members, "autocreate_branch"@);
                let description = optional::<String>(members, "description"@);
                let is_active = required::<bool>(members, "is_active"@);
                let name = required::<String>(members, "name"@);
                let repo_url = optional::<String>(members, "repo_url"@);
                if autocreate_branch is Some && description is Some && is_active is Some
                    && name is Some && repo_url is Some {
                    Some(
                        ProjectView {
                            autocreate_branch: autocreate_branch->Some_0,
                            description: description->Some_0,
                            is_active: is_active->Some_0,
                            name: name->Some_0,
                            repo_url: repo_url->Some_0,
                        },
                    )
                } else {
                    None
                }
            },
            _ => None,
        }
    }

    open spec fn encoded(value: ProjectView) -> JsonTree {
        JsonTree::Object(
            seq![
                ("autocreate_branch"@, encoded_option::<bool>(value.autocreate_branch)),
                ("description"@, encoded_option::<String>(value.description)),
                ("is_active"@, bool::encoded(value.is_active)),
                ("name"@, String::encoded(value.name)),
                ("repo_url"@, encoded_option::<String>(value.repo_url)),
            ],
        )
    }

    open spec fn sound(value: ProjectView) -> bool {
        true
    }

    fn decode(json: &Json) -> (r: Option<Project>) {
        proof {
            lemma_view_of_parts(*json);
        }
        match json {
            Json::Object(members) => {
                let autocreate_branch = read_optional::<bool>(members, "autocreate_branch")?;
                let description = read_optional::<String>(members, "description")?;
                let is_active = read_required::<bool>(members, "is_active")?;
                let name = read_required::<String>(members, "name")?;
                let repo_url = read_optional::<String>(members, "repo_url")?;
                Some(
                    Project {
                        autocreate_branch,
                        description,
                        is_active,
                        name,
                        repo_url,
                    },
                )
            },
            _ => None,
        }
    }

    fn encode(&self) -> (json: Json) {
        let mut members: Vec<(String, Json)> = Vec::new();
        members.push(entry("autocreate_branch", encode_option::<bool>(&self.autocreate_branch)));
        members.push(entry("description", encode_option::<String>(&self.description)));
        members.push(entry("is_active", self.is_active.encode()));
        members.push(entry("name", self.name.encode()));
        members.push(entry("repo_url", encode_option::<String>(&self.repo_url)));
        let json = Json::Object(members);
        proof {
            lemma_view_of_parts(json);
            assert(members_view(members@) =~= Self::encoded(self.deep_view())->Object_0);
        }
        json
    }

    proof fn decoded_is_sound(tree: JsonTree) {
    }

    proof fn never_null(value: ProjectView) {
    }

    proof fn round_trip(value: ProjectView) {
        let members = Self::encoded(value)->Object_0;
        lemma_project_names();
        lemma_optional_at::<bool>(members, 0, "autocreate_branch"@, value.autocreate_branch);
        lemma_optional_at::<String>(members, 1, "description"@, value.description);
        lemma_required_at::<bool>(members, 2, "is_active"@, value.is_active);
        lemma_required_at::<String>(members, 3, "name"@, value.name);
        lemma_optional_at::<String>(members, 4, "repo_url"@, value.repo_url);
    }
}

/// Represents a group of projects
#[derive(Clone, Debug, PartialEq, Eq)]
pub struct ProjectGroup {
    /// The unique ID for the project group.
    pub id: i32,
    /// The unique name for the project group.
    pub name: String,
    /// The full name of the project group.
    pub title: String,
    /// Date when this project group was created.
    pub created_at: Timestamp,
}

/// The mathematical value of a [`ProjectGroup`].
pub struct ProjectGroupView {
    pub id: i32,
    pub name: Seq<char>,
    pub title: Seq<char>,
    pub created_at: TimestampView,
}

impl DeepView for ProjectGroup {
    type V = ProjectGroupView;

    open spec fn deep_view(&self) -> ProjectGroupView {
        ProjectGroupView {
            id: self.id,
            name: self.name@,
            title: self.title@,
            created_at: self.created_at.deep_view(),
        }
    }
}

/// The lengths of the names of the members, and that no two names of one
/// length are the same.
proof fn lemma_group_names()
    ensures
        "id"@.len() == 2,
        "name"@.len() == 4,
        "title"@.len() == 5,
        "created_at"@.len() == 10,
{
    reveal_strlit("id");
    reveal_strlit("name");
    reveal_strlit("title");
    reveal_strlit("created_at");
}

/// An object with the members `id`, `name`, `title` and `created_at`.
impl Wire for ProjectGroup {
    open spec fn decoded(tree: JsonTree) -> Option<ProjectGroupView> {
        match tree {
            JsonTree::Object(members) => {
                let id = required::<i32>(members, "id"@);
                let name = required::<String>(members, "name"@);
                let title = required::<String>(members, "title"@);
                let created_at = required::<Timestamp>(members, "created_at"@);
                if id is Some && name is Some && title is Some && created_at is Some {
                    Some(
                        ProjectGroupView {
                            id: id->Some_0,
                            name: name->Some_0,
                            title: title->Some_0,
                            created_at: created_at->Some_0,
                        },
                    )
                } else {
                    None
                }
            },
            _ => None,
        }
    }

    open spec fn encoded(value: ProjectGroupView) -> JsonTree {
        JsonTree::Object(
            seq![
                ("id"@, i32::encoded(value.id)),
                ("name"@, String::encoded(value.name)),
                ("title"@, String::encoded(value.title)),
                ("created_at"@, Timestamp::encoded(value.created_at)),
            ],
        )
    }

    open spec fn sound(value: ProjectGroupView) -> bool {
        &&& Timestamp::sound(value.created_at)
    }

    fn decode(json: &Json) -> (r: Option<ProjectGroup>) {
        proof {
            lemma_view_of_parts(*json);
        }
        match json {
            Json::Object(members) => {
                let id = read_required::<i32>(members, "id")?;
                let name = read_required::<String>(members, "name")?;
                let title = read_required::<String>(members, "title")?;
                let created_at = read_required::<Timestamp>(members, "created_at")?;
                Some(
                    ProjectGroup {
                        id,
                        name,
                        title,
                        created_at,
                    },
                )
            },
            _ => None,
        }
    }

    fn encode(&self) -> (json: Json) {
        let mut members: Vec<(String, Json)> = Vec::new();
        members.push(entry("id", self.id.encode()));
        members.push(entry("name", self.name.encode()));
        members.push(entry("title", self.title.encode()));
        members.push(entry("created_at", self.created_at.encode()));
        let json = Json::Object(members);
        proof {
            lemma_view_of_parts(json);
            assert(members_view(members@) =~= Self::encoded(self.deep_view())->Object_0);
        }
        json
    }

    proof fn decoded_is_sound(tree: JsonTree) {
        if let JsonTree::Object(members) = tree {
            lemma_required_sound::<Timestamp>(members, "created_at"@);
        }
    }

    proof fn never_null(value: ProjectGroupView) {
    }

    proof fn round_trip(value: ProjectGroupView) {
        let members = Self::encoded(value)->Object_0;
        lemma_group_names();
        lemma_required_at::<i32>(members, 0, "id"@, value.id);
        lemma_required_at::<String>(members, 1, "name"@, value.name);
        lemma_required_at::<String>(members, 2, "title"@, value.title);
        lemma_required_at::<Timestamp>(members, 3, "created_at"@, value.created_at);
    }
}

impl ProjectGroup {
    /// The group with the ID 0 and empty names that was created at the
    /// given time.
    pub fn created(now: Timestamp) -> (r: ProjectGroup)
        ensures
            r.id == 0,
            r.name@ == Seq::<char>::empty(),
            r.title@ == Seq::<char>::empty(),
            r.created_at == now,
    {
        ProjectGroup { id: 0, name: String::new(), title: String::new(), created_at: now }
    }
}

impl Default for ProjectGroup {
    /// The group with the ID 0 and empty names, created at the time that
    /// the clock shows: [`ProjectGroup::created`] of one reading of it.
    fn default() -> (r: ProjectGroup)
        ensures
            r.id == 0,
            r.name@ == Seq::<char>::empty(),
            r.title@ == Seq::<char>::empty(),
            Timestamp::agrees(r.created_at.deep_view()),
            ProjectGroup::sound(r.deep_view()),
    {
        ProjectGroup::created(clock())
    }
}

impl Client {
    /// The address that lists the projects, up to [`DEFAULT_PROJ_LIMIT`] of
    /// them.
    pub fn get_all_projects_url(&self) -> (url: String)
        ensures
            url@ == self@ + "/projects?limit=100"@,
    {
        let url = self.address_of_id("/projects?limit=", DEFAULT_PROJ_LIMIT);
        proof {
            reveal_strlit("/projects?limit=");
            reveal_strlit("/projects?limit=100");
            reveal_with_fuel(digits, 3);
            assert("/projects?limit="@ + decimal(100) =~= "/projects?limit=100"@);
        }
        url
    }

    /// Reads the reply that lists the projects.
    pub fn get_all_projects(&self, reply: &str) -> (r: Result<Vec<Project>, Error>)
        ensures
            outcome(r) == fetched::<Vec<Project>>(document(reply@)),
    {
        self.fetch_url::<Vec<Project>>(reply)
    }

    /// The address that searches the projects for a text.
    pub fn search_projects_url(&self, s: &str) -> (url: String)
        ensures
            url@ == self@ + "/projects/search?q="@ + percent_encoded(s@),
    {
        self.address_of_text("/projects/search?q=", s)
    }

    /// Reads the reply to a search for projects.
    pub fn search_projects(&self, reply: &str) -> (r: Result<Vec<Project>, Error>)
        ensures
            outcome(r) == fetched::<Vec<Project>>(document(reply@)),
    {
        self.fetch_url::<Vec<Project>>(reply)
    }

    /// The address that lists the project groups.
    pub fn get_project_groups_url(&self) -> (url: String)
        ensures
            url@ == self@ + "/project_groups"@,
    {
        self.address_of("/project_groups")
    }

    /// Reads the reply that lists the project groups.
    pub fn get_project_groups(&self, reply: &str) -> (r: Result<Vec<ProjectGroup>, Error>)
        ensures
            outcome(r) == fetched::<Vec<ProjectGroup>>(document(reply@)),
    {
        self.fetch_url::<Vec<ProjectGroup>>(reply)
    }

    /// The address that lists the project groups of a name.
    pub fn get_project_groups_by_name_url(&self, name: &str) -> (url: String)
        ensures
            url@ == self@ + "/project_groups?name="@ + percent_encoded(name@),
    {
        self.address_of_text("/project_groups?name=", name)
    }

    /// Reads the reply that lists the project groups of a name.
    pub fn get_project_groups_by_name(&self, reply: &str) -> (r: Result<Vec<ProjectGroup>, Error>)
        ensures
            outcome(r) == fetched::<Vec<ProjectGroup>>(document(reply@)),
    {
        self.fetch_url::<Vec<ProjectGroup>>(reply)
    }

    /// The address that lists the projects in a project group.
    pub fn get_projects_in_group_url(&self, g: &ProjectGroup) -> (url: String)
        ensures
            url@ == self@ + "/project_groups/"@ + decimal(g.id as int) + "/projects"@,
    {
        let mut url = self.address_of_id("/project_groups/", g.id);
        url.append("/projects");
        url
    }

    /// Reads the reply that lists the projects in a project group.
    pub fn get_projects_in_group(&self, reply: &str) -> (r: Result<Vec<Project>, Error>)
        ensures
            outcome(r) == fetched::<Vec<Project>>(document(reply@)),
    {
        self.fetch_url::<Vec<Project>>(reply)
    }
}

/// A reply that is an array of documents, each with the shape of a
/// project, gives as many projects as the array has elements, each read
/// from the element in its place.
pub proof fn lemma_projects_in_order(items: Seq<JsonTree>)
    requires
        forall|i: int| 0 <= i < items.len() ==> (#[trigger] Project::decoded(items[i])) is Some,
    ensures
        fetched::<Vec<Project>>(Some(JsonTree::Array(items))) matches Ok(projects)
            && projects.len() == items.len() && forall|i: int|
            0 <= i < items.len() ==> Project::decoded(items[i]) == Some(#[trigger] projects[i]),
{
    lemma_array_in_order::<Project>(items);
}

/// A project holds, member for member, what the object that it was read
/// from holds: the text of `name`, the flag of `is_active`, and each of the
/// other members where the object has it and it is not `null`.
pub proof fn lemma_project_member_for_member(
    members: Seq<(Seq<char>, JsonTree)>,
    project: ProjectView,
)
    requires
        Project::decoded(JsonTree::Object(members)) == Some(project),
    ensures
        member(members, "name"@) == Some(JsonTree::Text(project.name)),
        member(members, "is_active"@) == Some(JsonTree::Bool(project.is_active)),
        match project.autocreate_branch {
            Some(flag) => member(members, "autocreate_branch"@) == Some(JsonTree::Bool(flag)),
            None => absent(member(members, "autocreate_branch"@)),
        },
        match project.description {
            Some(text) => member(members, "description"@) == Some(JsonTree::Text(text)),
            None => absent(member(members, "description"@)),
        },
        match project.repo_url {
            Some(text) => member(members, "repo_url"@) == Some(JsonTree::Text(text)),
            None => absent(member(members, "repo_url"@)),
        },
{
}

} // verus!
