//! Tasks, and the count of tasks in one status.

use vstd::prelude::*;
use crate::client::{fetched, outcome, Client};
use crate::error::Error;
use crate::json::{document, lemma_view_of_parts, members_view, Json, JsonTree};
use crate::projects::ProjectGroup;
use crate::text::{decimal, percent_encoded};
use crate::time::{Timestamp, TimestampView};
use crate::users::User;
use crate::wire::{
    encode_option, encoded_option, entry, lemma_optional_at, lemma_optional_sound,
    lemma_required_at, optional, read_optional, read_required, required, sound_option, Wire,
};

verus! {

/// Represents a task from the storyboard API.
#[derive(Clone, Debug, PartialEq, Eq)]
pub struct Task {
    /// The ID of the user that the task is assigned.
    pub assignee_id: Option<i32>,
    /// The ID of the branch.
    pub branch_id: Option<i32>,
    /// The ID of the user that created the task.
    pub creator_id: Option<i32>,
    /// The due dates related with the task
    pub due_dates: Option<Vec<Timestamp>>,
    /// The link to the related resource to the task.
    pub link: Option<String>,
    /// The ID of the corresponding milestone.
    pub milestone_id: Option<i32>,
    /// The priority of the task, as the service words it.
    pub priority: Option<String>,
    /// The ID of the corresponding project.
    pub project_id: Option<i32>,
    /// The status of the task, as the service words it.
    pub status: Option<String>,
    /// The ID of the corresponding story.
    pub story_id: i32,
    /// An optional short label for the task.
    pub title: String,
}

/// The mathematical value of a [`Task`].
pub struct TaskView {
    pub assignee_id: Option<i32>,
    pub branch_id: Option<i32>,
    pub creator_id: Option<i32>,
    pub due_dates: Option<Seq<TimestampView>>,
    pub link: Option<Seq<char>>,
    pub milestone_id: Option<i32>,
    pub priority: Option<Seq<char>>,
    pub project_id: Option<i32>,
    pub status: Option<Seq<char>>,
    pub story_id: i32,
    pub title: Seq<char>,
}

impl DeepView for Task {
    type V = TaskView;

    open spec fn deep_view(&self) -> TaskView {
        TaskView {
            assignee_id: self.assignee_id,
            branch_id: self.branch_id,
            creator_id: self.creator_id,
            due_dates: self.due_dates.deep_view(),
            link: self.link.deep_view(),
            milestone_id: self.milestone_id,
            priority: self.priority.deep_view(),
            project_id: self.project_id,
            status: self.status.deep_view(),
            story_id: self.story_id,
            title: self.title@,
        }
    }
}

/// The lengths of the names of the members, and that no two names of one
/// length are the same.
proof fn lemma_task_names()
    ensures
        "assignee_id"@.len() == 11,
        "branch_id"@.len() == 9,
        "creator_id"@.len() == 10,
        "due_dates"@.len() == 9,
        "link"@.len() == 4,
        "milestone_id"@.len() == 12,
        "priority"@.len() == 8,
        "project_id"@.len() == 10,
        "status"@.len() == 6,
        "story_id"@.len() == 8,
        "title"@.len() == 5,
        "branch_id"@ != "due_dates"@,
        "creator_id"@ != "project_id"@,
        "priority"@ != "story_id"@,
{
    reveal_strlit("assignee_id");
    reveal_strlit("branch_id");
    reveal_strlit("creator_id");
    reveal_strlit("due_dates");
    reveal_strlit("link");
    reveal_strlit("milestone_id");
    reveal_strlit("priority");
    reveal_strlit("project_id");
    reveal_strlit("status");
    reveal_strlit("story_id");
    reveal_strlit("title");
    assert("branch_id"@[0] != "due_dates"@[0]);
    assert("creator_id"@[0] != "project_id"@[0]);
    assert("priority"@[0] != "story_id"@[0]);
}

/// An object of which `story_id` and `title` must be there; the other members
/// may be left out or `null`.
impl Wire for Task {
    open spec fn decoded(tree: JsonTree) -> Option<TaskView> {
        match tree {
            JsonTree::Object(members) => {
                let assignee_id = optional::<i32>(members, "assignee_id"@);
                let branch_id = optional::<i32>(members, "branch_id"@);
                let creator_id = optional::<i32>(members, "creator_id"@);
                let due_dates = optional::<Vec<Timestamp>>(members, "due_dates"@);
                let link = optional::<String>(members, "link"@);
                let milestone_id = optional::<i32>(members, "milestone_id"@);
                let priority = optional::<String>(members, "priority"@);
                let project_id = optional::<i32>(members, "project_id"@);
                let status = optional::<String>(members, "status"@);
                let story_id = required::<i32>(members, "story_id"@);
                let title = required::<String>(members, "title"@);
                if assignee_id is Some && branch_id is Some && creator_id is Some
                    && due_dates is Some && link is Some && milestone_id is Some
                    && priority is Some && project_id is Some && status is Some
                    && story_id is Some && title is Some {
                    Some(
                        TaskView {
                            assignee_id: assignee_id->Some_0,
                            branch_id: branch_id->Some_0,
                            creator_id: creator_id->Some_0,
                            due_dates: due_dates->Some_0,
                            link: link->Some_0,
                            milestone_id: milestone_id->Some_0,
                            priority: priority->Some_0,
                            project_id: project_id->Some_0,
                            status: status->Some_0,
                            story_id: story_id->Some_0,
                            title: title->Some_0,
                        },
                    )
                } else {
                    None
                }
            },
            _ => None,
        }
    }

    open spec fn encoded(value: TaskView) -> JsonTree {
        JsonTree::Object(
            seq![
                ("assignee_id"@, encoded_option::<i32>(value.assignee_id)),
                ("branch_id"@, encoded_option::<i32>(value.branch_id)),
                ("creator_id"@, encoded_option::<i32>(value.creator_id)),
                ("due_dates"@, encoded_option::<Vec<Timestamp>>(value.due_dates)),
                ("link"@, encoded_option::<String>(value.link)),
                ("milestone_id"@, encoded_option::<i32>(value.milestone_id)),
                ("priority"@, encoded_option::<String>(value.priority)),
                ("project_id"@, encoded_option::<i32>(value.project_id)),
                ("status"@, encoded_option::<String>(value.status)),
                ("story_id"@, i32::encoded(value.story_id)),
                ("title"@, String::encoded(value.title)),
            ],
        )
    }

    open spec fn sound(value: TaskView) -> bool {
        &&& sound_option::<Vec<Timestamp>>(value.due_dates)
    }

    fn decode(json: &Json) -> (r: Option<Task>) {
        proof {
            lemma_view_of_parts(*json);
        }
        match json {
            Json::Object(members) => {
                let assignee_id = read_optional::<i32>(members, "assignee_id")?;
                let branch_id = read_optional::<i32>(members, "branch_id")?;
                let creator_id = read_optional::<i32>(members, "creator_id")?;
                let due_dates = read_optional::<Vec<Timestamp>>(members, "due_dates")?;
                let link = read_optional::<String>(members, "link")?;
                let milestone_id = read_optional::<i32>(members, "milestone_id")?;
                let priority = read_optional::<String>(members, "priority")?;
                let project_id = read_optional::<i32>(members, "project_id")?;
                let status = read_optional::<String>(members, "status")?;
                let story_id = read_required::<i32>(members, "story_id")?;
                let title = read_required::<String>(members, "title")?;
                Some(
                    Task {
                        assignee_id,
                        branch_id,
                        creator_id,
                        due_dates,
                        link,
                        milestone_id,
                        priority,
                        project_id,
                        status,
                        story_id,
                        title,
                    },
                )
            },
            _ => None,
        }
    }

    fn encode(&self) -> (json: Json) {
        let mut members: Vec<(String, Json)> = Vec::new();
        members.push(entry("assignee_id", encode_option::<i32>(&self.assignee_id)));
        members.push(entry("branch_id", encode_option::<i32>(&self.branch_id)));
        members.push(entry("creator_id", encode_option::<i32>(&self.creator_id)));
        members.push(entry("due_dates", encode_option::<Vec<Timestamp>>(&self.due_dates)));
        members.push(entry("link", encode_option::<String>(&self.link)));
        members.push(entry("milestone_id", encode_option::<i32>(&self.milestone_id)));
        members.push(entry("priority", encode_option::<String>(&self.priority)));
        members.push(entry("project_id", encode_option::<i32>(&self.project_id)));
        members.push(entry("status", encode_option::<String>(&self.status)));
        members.push(entry("story_id", self.story_id.encode()));
        members.push(entry("title", self.title.encode()));
        let json = Json::Object(members);
        proof {
            lemma_view_of_parts(json);
            assert(members_view(members@) =~= Self::encoded(self.deep_view())->Object_0);
        }
        json
    }

    proof fn decoded_is_sound(tree: JsonTree) {
        if let JsonTree::Object(members) = tree {
            lemma_optional_sound::<Vec<Timestamp>>(members, "due_dates"@);
        }
    }

    proof fn never_null(value: TaskView) {
    }

    proof fn round_trip(value: TaskView) {
        let members = Self::encoded(value)->Object_0;
        lemma_task_names();
        lemma_optional_at::<i32>(members, 0, "assignee_id"@, value.assignee_id);
        lemma_optional_at::<i32>(members, 1, "branch_id"@, value.branch_id);
        lemma_optional_at::<i32>(members, 2, "creator_id"@, value.creator_id);
        lemma_optional_at::<Vec<Timestamp>>(members, 3, "due_dates"@, value.due_dates);
        lemma_optional_at::<String>(members, 4, "link"@, value.link);
        lemma_optional_at::<i32>(members, 5, "milestone_id"@, value.milestone_id);
        lemma_optional_at::<String>(members, 6, "priority"@, value.priority);
        lemma_optional_at::<i32>(members, 7, "project_id"@, value.project_id);
        lemma_optional_at::<String>(members, 8, "status"@, value.status);
        lemma_required_at::<i32>(members, 9, "story_id"@, value.story_id);
        lemma_required_at::<String>(members, 10, "title"@, value.title);
    }
}

/// A counter of task status changes.
///
/// This type is usually used internally.
#[derive(Clone, Debug, PartialEq, Eq)]
pub struct TaskStatusCount {
    /// The counter of changes
    pub count: Option<i32>,
    /// The key.
    pub key: String,
}

/// The mathematical value of a [`TaskStatusCount`].
pub struct TaskStatusCountView {
    pub count: Option<i32>,
    pub key: Seq<char>,
}

impl DeepView for TaskStatusCount {
    type V = TaskStatusCountView;

    open spec fn deep_view(&self) -> TaskStatusCountView {
        TaskStatusCountView {
            count: self.count,
            key: self.key@,
        }
    }
}

/// The lengths of the names of the members, and that no two names of one
/// length are the same.
proof fn lemma_count_names()
    ensures
        "count"@.len() == 5,
        "key"@.len() == 3,
{
    reveal_strlit("count");
    reveal_strlit("key");
}

/// An object with the member `key`; `count` may be left out or `null`.
impl Wire for TaskStatusCount {
    open spec fn decoded(tree: JsonTree) -> Option<TaskStatusCountView> {
        match tree {
            JsonTree::Object(members) => {
                let count = optional::<i32>(members, "count"@);
                let key = required::<String>(members, "key"@);
                if count is Some && key is Some {
                    Some(
                        TaskStatusCountView {
                            count: count->Some_0,
                            key: key->Some_0,
                        },
                    )
                } else {
                    None
                }
            },
            _ => None,
        }
    }

    open spec fn encoded(value: TaskStatusCountView) -> JsonTree {
        JsonTree::Object(
            seq![
                ("count"@, encoded_option::<i32>(value.count)),
                ("key"@, String::encoded(value.key)),
            ],
        )
    }

    open spec fn sound(value: TaskStatusCountView) -> bool {
        true
    }

    fn decode(json: &Json) -> (r: Option<TaskStatusCount>) {
        proof {
            lemma_view_of_parts(*json);
        }
        match json {
            Json::Object(members) => {
                let count = read_optional::<i32>(members, "count")?;
                let key = read_required::<String>(members, "key")?;
                Some(
                    TaskStatusCount {
                        count,
                        key,
                    },
                )
            },
            _ => None,
        }
    }

    fn encode(&self) -> (json: Json) {
        let mut members: Vec<(String, Json)> = Vec::new();
        members.push(entry("count", encode_option::<i32>(&self.count)));
        members.push(entry("key", self.key.encode()));
        let json = Json::Object(members);
        proof {
            lemma_view_of_parts(json);
            assert(members_view(members@) =~= Self::encoded(self.deep_view())->Object_0);
        }
        json
    }

    proof fn decoded_is_sound(tree: JsonTree) {
    }

    proof fn never_null(value: TaskStatusCountView) {
    }

    proof fn round_trip(value: TaskStatusCountView) {
        let members = Self::encoded(value)->Object_0;
        lemma_count_names();
        lemma_optional_at::<i32>(members, 0, "count"@, value.count);
        lemma_required_at::<String>(members, 1, "key"@, value.key);
    }
}

impl Client {
    /// The address that searches the tasks for a text.
    pub fn search_tasks_url(&self, s: &str) -> (url: String)
        ensures
            url@ == self@ + "/tasks/search?q="@ + percent_encoded(s@),
    {
        self.address_of_text("/tasks/search?q=", s)
    }

    /// Reads the reply to a search for tasks.
    pub fn search_tasks(&self, reply: &str) -> (r: Result<Vec<Task>, Error>)
        ensures
            outcome(r) == fetched::<Vec<Task>>(document(reply@)),
    {
        self.fetch_url::<Vec<Task>>(reply)
    }

    /// The address that lists the tasks of a project group.
    pub fn get_tasks_in_project_group_url(&self, g: &ProjectGroup) -> (url: String)
        ensures
            url@ == self@ + "/tasks?project_group_id="@ + decimal(g.id as int),
    {
        self.address_of_id("/tasks?project_group_id=", g.id)
    }

    /// Reads the reply that lists the tasks of a project group.
    pub fn get_tasks_in_project_group(&self, reply: &str) -> (r: Result<Vec<Task>, Error>)
        ensures
            outcome(r) == fetched::<Vec<Task>>(document(reply@)),
    {
        self.fetch_url::<Vec<Task>>(reply)
    }

    /// The address that lists the tasks assigned to a user.
    pub fn get_tasks_assigned_to_url(&self, u: &User) -> (url: String)
        ensures
            url@ == self@ + "/tasks?assignee_id="@ + decimal(u.id as int),
    {
        self.address_of_id("/tasks?assignee_id=", u.id)
    }

    /// Reads the reply that lists the tasks assigned to a user.
    pub fn get_tasks_assigned_to(&self, reply: &str) -> (r: Result<Vec<Task>, Error>)
        ensures
            outcome(r) == fetched::<Vec<Task>>(document(reply@)),
    {
        self.fetch_url::<Vec<Task>>(reply)
    }
}

} // verus!
