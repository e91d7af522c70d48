//! Stories, and the teams that a story names.

use vstd::prelude::*;
use vstd::string::*;
use crate::client::{fetched, outcome, Client};
use crate::error::Error;
use crate::json::{document, lemma_view_of_parts, members_view, Json, JsonTree};
use crate::tasks::{Task, TaskStatusCount, TaskStatusCountView};
use crate::text::{decimal, percent_encoded};
use crate::time::{Timestamp, TimestampView};
use crate::users::{User, UserView};
use crate::wire::{
    encode_option, encoded_option, entry, lemma_optional_at, lemma_optional_sound,
    lemma_required_at, lemma_required_sound, optional, read_optional, read_required, required,
    sound_option, Wire,
};

verus! {

/// A type that represents a story in storyboard.
#[derive(Clone, Debug, PartialEq, Eq)]
pub struct Story {
    /// The ID of the story creator.
    pub creator_id: Option<i32>,
    /// A complete description of the story.
    pub description: String,
    /// The due dates related with this story.
    ///
    /// A task carries its due dates as dates and times; a story carries them
    /// as whole numbers.
    pub due_dates: Option<Vec<i32>>,
    /// If the story is a bug or a feature.
    pub is_bug: bool,
    /// If the story is private.
    pub private: bool,
    /// The current status of the story, as the service words it.
    pub status: String,
    /// The ID of the story type.
    pub story_type_id: Option<i32>,
    /// The list of tags associated with this story.
    pub tags: Vec<String>,
    /// The statuses of the tasks within this story.
    pub task_statuses: Vec<TaskStatusCount>,
    /// The teams related with this story.
    pub teams: Vec<Team>,
    /// A descriptive label for the story.
    pub title: String,
    /// The set of users with permissions to see this story if it is private.
    pub users: Vec<User>,
    /// The ID of the story.
    pub id: i32,
}

/// The mathematical value of a [`Story`].
pub struct StoryView {
    pub creator_id: Option<i32>,
    pub description: Seq<char>,
    pub due_dates: Option<Seq<i32>>,
    pub is_bug: bool,
    pub private: bool,
    pub status: Seq<char>,
    pub story_type_id: Option<i32>,
    pub tags: Seq<Seq<char>>,
    pub task_statuses: Seq<TaskStatusCountView>,
    pub teams: Seq<TeamView>,
    pub title: Seq<char>,
    pub users: Seq<UserView>,
    pub id: i32,
}

impl DeepView for Story {
    type V = StoryView;

    open spec fn deep_view(&self) -> StoryView {
        StoryView {
            creator_id: self.creator_id,
            description: self.description@,
            due_dates: self.due_dates.deep_view(),
            is_bug: self.is_bug,
            private: self.private,
            status: self.status@,
            story_type_id: self.story_type_id,
            tags: self.tags.deep_view(),
            task_statuses: self.task_statuses.deep_view(),
            teams: self.teams.deep_view(),
            title: self.title@,
            users: self.users.deep_view(),
            id: self.id,
        }
    }
}

/// The lengths of the names of the members, and that no two names of one
/// length are the same.
proof fn lemma_story_names()
    ensures
        "creator_id"@.len() == 10,
        "description"@.len() == 11,
        "due_dates"@.len() == 9,
        "is_bug"@.len() == 6,
        "private"@.len() == 7,
        "status"@.len() == 6,
        "story_type_id"@.len() == 13,
        "tags"@.len() == 4,
        "task_statuses"@.len() == 13,
        "teams"@.len() == 5,
        "title"@.len() == 5,
        "users"@.len() == 5,
        "id"@.len() == 2,
        "is_bug"@ != "status"@,
        "story_type_id"@ != "task_statuses"@,
        "teams"@ != "title"@,
        "teams"@ != "users"@,
        "title"@ != "users"@,
{
    reveal_strlit("creator_id");
    reveal_strlit("description");
    reveal_strlit("due_dates");
    reveal_strlit("is_bug");
    reveal_strlit("private");
    reveal_strlit("status");
    reveal_strlit("story_type_id");
    reveal_strlit("tags");
    reveal_strlit("task_statuses");
    reveal_strlit("teams");
    reveal_strlit("title");
    reveal_strlit("users");
    reveal_strlit("id");
    assert("is_bug"@[0] != "status"@[0]);
    assert("story_type_id"@[0] != "task_statuses"@[0]);
    assert("teams"@[1] != "title"@[1]);
    assert("teams"@[0] != "users"@[0]);
    assert("title"@[0] != "users"@[0]);
}

/// An object of which `creator_id`, `due_dates` and `story_type_id` may be left
/// out or `null`; the other members must be there.
impl Wire for Story {
    open spec fn decoded(tree: JsonTree) -> Option<StoryView> {
        match tree {
            JsonTree::Object(members) => {
                let creator_id = optional::<i32>(members, "creator_id"@);
                let description = required::<String>(members, "description"@);
                let due_dates = optional::<Vec<i32>>(members, "due_dates"@);
                let is_bug = required::<bool>(members, "is_bug"@);
                let private = required::<bool>(members, "private"@);
                let status = required::<String>(members, "status"@);
                let story_type_id = optional::<i32>(members, "story_type_id"@);
                let tags = required::<Vec<String>>(members, "tags"@);
                let task_statuses = required::<Vec<TaskStatusCount>>(members, "task_statuses"@);
                let teams = required::<Vec<Team>>(members, "teams"@);
                let title = required::<String>(members, "title"@);
                let users = required::<Vec<User>>(members, "users"@);
                let id = required::<i32>(members, "id"@);
                if creator_id is Some && description is Some && due_dates is Some
                    && is_bug is Some && private is Some && status is Some
                    && story_type_id is Some && tags is Some && task_statuses is Some
                    && teams is Some && title is Some && users is Some && id is Some {
                    Some(
                        StoryView {
                            creator_id: creator_id->Some_0,
                            description: description->Some_0,
                            due_dates: due_dates->Some_0,
                            is_bug: is_bug->Some_0,
                            private: private->Some_0,
                            status: status->Some_0,
                            story_type_id: story_type_id->Some_0,
                            tags: tags->Some_0,
                            task_statuses: task_statuses->Some_0,
                            teams: teams->Some_0,
                            title: title->Some_0,
                            users: users->Some_0,
                            id: id->Some_0,
                        },
                    )
                } else {
                    None
                }
            },
            _ => None,
        }
    }

    open spec fn encoded(value: StoryView) -> JsonTree {
        JsonTree::Object(
            seq![
                ("creator_id"@, encoded_option::<i32>(value.creator_id)),
                ("description"@, String::encoded(value.description)),
                ("due_dates"@, encoded_option::<Vec<i32>>(value.due_dates)),
                ("is_bug"@, bool::encoded(value.is_bug)),
                ("private"@, bool::encoded(value.private)),
                ("status"@, String::encoded(value.status)),
                ("story_type_id"@, encoded_option::<i32>(value.story_type_id)),
                ("tags"@, Vec::<String>::encoded(value.tags)),
                ("task_statuses"@, Vec::<TaskStatusCount>::encoded(value.task_statuses)),
                ("teams"@, Vec::<Team>::encoded(value.teams)),
                ("title"@, String::encoded(value.title)),
                ("users"@, Vec::<User>::encoded(value.users)),
                ("id"@, i32::encoded(value.id)),
            ],
        )
    }

    open spec fn sound(value: StoryView) -> bool {
        &&& Vec::<Team>::sound(value.teams)
    }

    fn decode(json: &Json) -> (r: Option<Story>) {
        proof {
            lemma_view_of_parts(*json);
        }
        match json {
            Json::Object(members) => {
                let creator_id = read_optional::<i32>(members, "creator_id")?;
                let description = read_required::<String>(members, "description")?;
                let due_dates = read_optional::<Vec<i32>>(members, "due_dates")?;
                let is_bug = read_required::<bool>(members, "is_bug")?;
                let private = read_required::<bool>(members, "private")?;
                let status = read_required::<String>(members, "status")?;
                let story_type_id = read_optional::<i32>(members, "story_type_id")?;
                let tags = read_required::<Vec<String>>(members, "tags")?;
                let task_statuses = read_required::<Vec<TaskStatusCount>>(
                    members,
                    "task_statuses",
                )?;
                let teams = read_required::<Vec<Team>>(members, "teams")?;
                let title = read_required::<String>(members, "title")?;
                let users = read_required::<Vec<User>>(members, "users")?;
                let id = read_required::<i32>(members, "id")?;
                Some(
                    Story {
                        creator_id,
                        description,
                        due_dates,
                        is_bug,
                        private,
                        status,
                        story_type_id,
                        tags,
                        task_statuses,
                        teams,
                        title,
                        users,
                        id,
                    },
                )
            },
            _ => None,
        }
    }

    fn encode(&self) -> (json: Json) {
        let mut members: Vec<(String, Json)> = Vec::new();
        members.push(entry("creator_id", encode_option::<i32>(&self.creator_id)));
        members.push(entry("description", self.description.encode()));
        members.push(entry("due_dates", encode_option::<Vec<i32>>(&self.due_dates)));
        members.push(entry("is_bug", self.is_bug.encode()));
        members.push(entry("private", self.private.encode()));
        members.push(entry("status", self.status.encode()));
        members.push(entry("story_type_id", encode_option::<i32>(&self.story_type_id)));
        members.push(entry("tags", self.tags.encode()));
        members.push(entry("task_statuses", self.task_statuses.encode()));
        members.push(entry("teams", self.teams.encode()));
        members.push(entry("title", self.title.encode()));
        members.push(entry("users", self.users.encode()));
        members.push(entry("id", self.id.encode()));
        let json = Json::Object(members);
        proof {
            lemma_view_of_parts(json);
            assert(members_view(members@) =~= Self::encoded(self.deep_view())->Object_0);
        }
        json
    }

    proof fn decoded_is_sound(tree: JsonTree) {
        if let JsonTree::Object(members) = tree {
            lemma_required_sound::<Vec<Team>>(members, "teams"@);
        }
    }

    proof fn never_null(value: StoryView) {
    }

    proof fn round_trip(value: StoryView) {
        let members = Self::encoded(value)->Object_0;
        lemma_story_names();
        lemma_optional_at::<i32>(members, 0, "creator_id"@, value.creator_id);
        lemma_required_at::<String>(members, 1, "description"@, value.description);
        lemma_optional_at::<Vec<i32>>(members, 2, "due_dates"@, value.due_dates);
        lemma_required_at::<bool>(members, 3, "is_bug"@, value.is_bug);
        lemma_required_at::<bool>(members, 4, "private"@, value.private);
        lemma_required_at::<String>(members, 5, "status"@, value.status);
        lemma_optional_at::<i32>(members, 6, "story_type_id"@, value.story_type_id);
        lemma_required_at::<Vec<String>>(members, 7, "tags"@, value.tags);
        lemma_required_at::<Vec<TaskStatusCount>>(
            members,
            8,
            "task_statuses"@,
            value.task_statuses,
        );
        lemma_required_at::<Vec<Team>>(members, 9, "teams"@, value.teams);
        lemma_required_at::<String>(members, 10, "title"@, value.title);
        lemma_required_at::<Vec<User>>(members, 11, "users"@, value.users);
        lemma_required_at::<i32>(members, 12, "id"@, value.id);
    }
}

impl Default for Story {
    /// The story with empty texts and lists, no flags set and the ID 0.
    fn default() -> (r: Story)
        ensures
            r.creator_id is None,
            r.description@.len() == 0,
            r.due_dates is None,
            !r.is_bug,
            !r.private,
            r.status@.len() == 0,
            r.story_type_id is None,
            r.tags@.len() == 0,
            r.task_statuses@.len() == 0,
            r.teams@.len() == 0,
            r.title@.len() == 0,
            r.users@.len() == 0,
            r.id == 0,
    {
        Story {
            creator_id: None,
            description: String::new(),
            due_dates: None,
            is_bug: false,
            private: false,
            status: String::new(),
            story_type_id: None,
            tags: Vec::new(),
            task_statuses: Vec::new(),
            teams: Vec::new(),
            title: String::new(),
            users: Vec::new(),
            id: 0,
        }
    }
}

/// Representation of a team
#[derive(Clone, Debug, PartialEq, Eq)]
pub struct Team {
    /// The date when this story was updated.
    pub updated_at: Option<Timestamp>,
    /// The date when this story was created.
    pub created_at: Timestamp,
    /// The name of the team.
    pub name: String,
}

/// The mathematical value of a [`Team`].
pub struct TeamView {
    pub updated_at: Option<TimestampView>,
    pub created_at: TimestampView,
    pub name: Seq<char>,
}

impl DeepView for Team {
    type V = TeamView;

    open spec fn deep_view(&self) -> TeamView {
        TeamView {
            updated_at: self.updated_at.deep_view(),
            created_at: self.created_at.deep_view(),
            name: self.name@,
        }
    }
}

/// The lengths of the names of the members, and that no two names of one
/// length are the same.
proof fn lemma_team_names()
    ensures
        "updated_at"@.len() == 10,
        "created_at"@.len() == 10,
        "name"@.len() == 4,
        "updated_at"@ != "created_at"@,
{
    reveal_strlit("updated_at");
    reveal_strlit("created_at");
    reveal_strlit("name");
    assert("updated_at"@[0] != "created_at"@[0]);
}

/// An object with the members `created_at` and `name`; `updated_at` may be left
/// out or `null`.
impl Wire for Team {
    open spec fn decoded(tree: JsonTree) -> Option<TeamView> {
        match tree {
            JsonTree::Object(members) => {
                let updated_at = optional::<Timestamp>(members, "updated_at"@);
                let created_at = required::<Timestamp>(members, "created_at"@);
                let name = required::<String>(members, "name"@);
                if updated_at is Some && created_at is Some && name is Some {
                    Some(
                        TeamView {
                            updated_at: updated_at->Some_0,
                            created_at: created_at->Some_0,
                            name: name->Some_0,
                        },
                    )
                } else {
                    None
                }
            },
            _ => None,
        }
    }

    open spec fn encoded(value: TeamView) -> JsonTree {
        JsonTree::Object(
            seq![
                ("updated_at"@, encoded_option::<Timestamp>(value.updated_at)),
                ("created_at"@, Timestamp::encoded(value.created_at)),
                ("name"@, String::encoded(value.name)),
            ],
        )
    }

    open spec fn sound(value: TeamView) -> bool {
        &&& sound_option::<Timestamp>(value.updated_at)
        &&& Timestamp::sound(value.created_at)
    }

    fn decode(json: &Json) -> (r: Option<Team>) {
        proof {
            lemma_view_of_parts(*json);
        }
        match json {
            Json::Object(members) => {
                let updated_at = read_optional::<Timestamp>(members, "updated_at")?;
                let created_at = read_required::<Timestamp>(members, "created_at")?;
                let name = read_required::<String>(members, "name")?;
                Some(
                    Team {
                        updated_at,
                        created_at,
                        name,
                    },
                )
            },
            _ => None,
        }
    }

    fn encode(&self) -> (json: Json) {
        let mut members: Vec<(String, Json)> = Vec::new();
        members.push(entry("updated_at", encode_option::<Timestamp>(&self.updated_at)));
        members.push(entry("created_at", self.created_at.encode()));
        members.push(entry("name", self.name.encode()));
        let json = Json::Object(members);
        proof {
            lemma_view_of_parts(json);
            assert(members_view(members@) =~= Self::encoded(self.deep_view())->Object_0);
        }
        json
    }

    proof fn decoded_is_sound(tree: JsonTree) {
        if let JsonTree::Object(members) = tree {
            lemma_optional_sound::<Timestamp>(members, "updated_at"@);
            lemma_required_sound::<Timestamp>(members, "created_at"@);
        }
    }

    proof fn never_null(value: TeamView) {
    }

    proof fn round_trip(value: TeamView) {
        let members = Self::encoded(value)->Object_0;
        lemma_team_names();
        lemma_optional_at::<Timestamp>(members, 0, "updated_at"@, value.updated_at);
        lemma_required_at::<Timestamp>(members, 1, "created_at"@, value.created_at);
        lemma_required_at::<String>(members, 2, "name"@, value.name);
    }
}

impl Client {
    /// The address that searches the stories for a text.
    pub fn search_stories_url(&self, s: &str) -> (url: String)
        ensures
            url@ == self@ + "/stories/search?q="@ + percent_encoded(s@),
    {
        self.address_of_text("/stories/search?q=", s)
    }

    /// Reads the reply to a search for stories.
    pub fn search_stories(&self, reply: &str) -> (r: Result<Vec<Story>, Error>)
        ensures
            outcome(r) == fetched::<Vec<Story>>(document(reply@)),
    {
        self.fetch_url::<Vec<Story>>(reply)
    }

    /// The address that lists the tasks within a story.
    pub fn get_tasks_in_story_url(&self, story: &Story) -> (url: String)
        ensures
            url@ == self@ + "/stories/"@ + decimal(story.id as int) + "/tasks"@,
    {
        let mut url = self.address_of_id("/stories/", story.id);
        url.append("/tasks");
        url
    }

    /// Reads the reply that lists the tasks within a story.
    pub fn get_tasks_in_story(&self, reply: &str) -> (r: Result<Vec<Task>, Error>)
        ensures
            outcome(r) == fetched::<Vec<Task>>(document(reply@)),
    {
        self.fetch_url::<Vec<Task>>(reply)
    }
}

/// A story that was read from a reply is read again, the same in every
/// field, from the document that it is written as.
pub proof fn lemma_story_round_trip(tree: JsonTree, story: StoryView)
    requires
        Story::decoded(tree) == Some(story),
    ensures
        Story::decoded(Story::encoded(story)) == Some(story),
{
    Story::decoded_is_sound(tree);
    Story::round_trip(story);
}

/// The stories of a reply are read again, the same in every field, from
/// the document that they are written as.
pub proof fn lemma_stories_round_trip(reply: JsonTree, stories: Seq<StoryView>)
    requires
        fetched::<Vec<Story>>(Some(reply)) == Ok::<Seq<StoryView>, Error>(stories),
    ensures
        fetched::<Vec<Story>>(Some(Vec::<Story>::encoded(stories))) == Ok::<
            Seq<StoryView>,
            Error,
        >(stories),
{
    Vec::<Story>::decoded_is_sound(reply);
    Vec::<Story>::round_trip(stories);
}

} // verus!
