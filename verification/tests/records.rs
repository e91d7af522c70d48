use storyboard_client::wire::{encode_option, entry, read_optional, read_required};
use storyboard_client::{
    ApiError, ApiResult, Json, Project, ProjectGroup, Story, Task, TaskStatusCount, Team,
    Timestamp, User, Wire,
};

fn text(s: &str) -> Json {
    Json::Text(s.to_string())
}

fn number(n: i64) -> Json {
    Json::Number(Some(n))
}

fn object(members: &[(&str, Json)]) -> Json {
    let mut out = Vec::new();
    for (name, value) in members {
        out.push((name.to_string(), Json::parse(&render(value)).unwrap()));
    }
    Json::Object(out)
}

fn render(json: &Json) -> String {
    match json {
        Json::Null => "null".to_string(),
        Json::Bool(b) => format!("{}", b),
        Json::Number(Some(n)) => format!("{}", n),
        Json::Number(None) => "0.5".to_string(),
        Json::Text(s) => format!("{:?}", s),
        Json::Array(items) => {
            let parts: Vec<String> = items.iter().map(render).collect();
            format!("[{}]", parts.join(","))
        }
        Json::Object(members) => {
            let parts: Vec<String> =
                members.iter().map(|(k, v)| format!("{:?}:{}", k, render(v))).collect();
            format!("{{{}}}", parts.join(","))
        }
    }
}

fn at(text: &str, seconds: i64, nanos: u32) -> Timestamp {
    Timestamp { text: text.to_string(), seconds, nanos }
}

fn erich() -> User {
    User {
        email: "erich@example.org".to_string(),
        enable_login: true,
        full_name: "Erich Cordoba".to_string(),
        is_superuser: false,
        openid: "https://login.example.org/+id/abc".to_string(),
        id: 4662,
    }
}

fn erich_json() -> Json {
    object(&[
        ("email", text("erich@example.org")),
        ("enable_login", Json::Bool(true)),
        ("full_name", text("Erich Cordoba")),
        ("is_superuser", Json::Bool(false)),
        ("openid", text("https://login.example.org/+id/abc")),
        ("id", number(4662)),
    ])
}

#[test]
fn plain_values_are_read_from_their_own_kind_only() {
    assert_eq!(bool::decode(&Json::Bool(true)), Some(true));
    assert_eq!(bool::decode(&number(1)), None);
    assert_eq!(bool::decode(&text("true")), None);
    assert_eq!(bool::decode(&Json::Null), None);
    assert_eq!(String::decode(&text("a")), Some("a".to_string()));
    assert_eq!(String::decode(&number(1)), None);
    assert_eq!(String::decode(&Json::Null), None);
    assert_eq!(i32::decode(&number(19)), Some(19));
    assert_eq!(i32::decode(&text("19")), None);
    assert_eq!(i32::decode(&Json::Number(None)), None);
}

#[test]
fn a_number_must_fit_in_thirty_two_bits() {
    assert_eq!(i32::decode(&number(2147483647)), Some(i32::MAX));
    assert_eq!(i32::decode(&number(-2147483648)), Some(i32::MIN));
    assert_eq!(i32::decode(&number(2147483648)), None);
    assert_eq!(i32::decode(&number(-2147483649)), None);
    assert_eq!(i32::decode(&Json::parse("1.0").unwrap()), None);
}

#[test]
fn plain_values_are_written_as_their_own_kind() {
    assert_eq!(true.encode(), Json::Bool(true));
    assert_eq!((-3i32).encode(), number(-3));
    assert_eq!("a".to_string().encode(), text("a"));
    assert_eq!(vec![1i32, 2].encode(), Json::Array(vec![number(1), number(2)]));
    assert_eq!(Vec::<i32>::new().encode(), Json::Array(vec![]));
    assert_eq!(encode_option::<i32>(&None), Json::Null);
    assert_eq!(encode_option::<i32>(&Some(4)), number(4));
}

#[test]
fn a_list_is_read_element_by_element_or_not_at_all() {
    let json = Json::Array(vec![number(1), number(2), number(3)]);
    assert_eq!(Vec::<i32>::decode(&json), Some(vec![1, 2, 3]));
    assert_eq!(Vec::<i32>::decode(&Json::Array(vec![])), Some(vec![]));
    let mixed = Json::Array(vec![number(1), text("2"), number(3)]);
    assert_eq!(Vec::<i32>::decode(&mixed), None);
    assert_eq!(Vec::<i32>::decode(&Json::Null), None);
    assert_eq!(Vec::<i32>::decode(&object(&[])), None);
}

#[test]
fn a_member_that_must_be_there_is_not_made_up() {
    let members = vec![entry("a", number(1)), entry("b", Json::Null)];
    assert_eq!(read_required::<i32>(&members, "a"), Some(1));
    assert_eq!(read_required::<i32>(&members, "b"), None);
    assert_eq!(read_required::<i32>(&members, "c"), None);
    assert_eq!(read_required::<String>(&members, "a"), None);
}

#[test]
fn a_member_that_may_be_left_out_is_none_when_missing_or_null() {
    let members = vec![entry("a", number(1)), entry("b", Json::Null)];
    assert_eq!(read_optional::<i32>(&members, "a"), Some(Some(1)));
    assert_eq!(read_optional::<i32>(&members, "b"), Some(None));
    assert_eq!(read_optional::<i32>(&members, "c"), Some(None));
    assert_eq!(read_optional::<String>(&members, "a"), None);
}

#[test]
fn a_user_is_read_member_for_member() {
    assert_eq!(User::decode(&erich_json()), Some(erich()));
}

#[test]
fn a_user_is_written_with_its_members_in_order() {
    let expected = Json::Object(vec![
        entry("email", text("erich@example.org")),
        entry("enable_login", Json::Bool(true)),
        entry("full_name", text("Erich Cordoba")),
        entry("is_superuser", Json::Bool(false)),
        entry("openid", text("https://login.example.org/+id/abc")),
        entry("id", number(4662)),
    ]);
    assert_eq!(erich().encode(), expected);
}

#[test]
fn a_user_without_an_id_is_not_read() {
    let json = object(&[
        ("email", text("erich@example.org")),
        ("enable_login", Json::Bool(true)),
        ("full_name", text("Erich Cordoba")),
        ("is_superuser", Json::Bool(false)),
        ("openid", text("o")),
    ]);
    assert_eq!(User::decode(&json), None);
    assert_eq!(User::decode(&Json::Array(vec![])), None);
    assert_eq!(User::decode(&Json::Null), None);
}

#[test]
fn members_that_a_record_does_not_have_are_passed_over() {
    let json = object(&[
        ("email", text("e")),
        ("enable_login", Json::Bool(false)),
        ("full_name", text("f")),
        ("is_superuser", Json::Bool(true)),
        ("openid", text("o")),
        ("id", number(1)),
        ("last_login", text("2016-04-19T13:28:54+00:00")),
        ("created_at", Json::Null),
    ]);
    let user = User::decode(&json).unwrap();
    assert_eq!(user.id, 1);
    assert!(user.is_superuser);
    assert!(!user.enable_login);
}

#[test]
fn a_project_is_read_with_and_without_what_may_be_left_out() {
    let full = object(&[
        ("autocreate_branch", Json::Bool(false)),
        ("description", text("Build tools")),
        ("is_active", Json::Bool(true)),
        ("name", text("starlingx/build")),
        ("repo_url", text("https://opendev.org/starlingx/build")),
    ]);
    assert_eq!(
        Project::decode(&full),
        Some(Project {
            autocreate_branch: Some(false),
            description: Some("Build tools".to_string()),
            is_active: true,
            name: "starlingx/build".to_string(),
            repo_url: Some("https://opendev.org/starlingx/build".to_string()),
        })
    );
    let bare = object(&[
        ("is_active", Json::Bool(false)),
        ("name", text("n")),
        ("repo_url", Json::Null),
    ]);
    assert_eq!(
        Project::decode(&bare),
        Some(Project {
            autocreate_branch: None,
            description: None,
            is_active: false,
            name: "n".to_string(),
            repo_url: None,
        })
    );
}

#[test]
fn a_project_with_a_member_of_the_wrong_kind_is_not_read() {
    let wrong_flag = object(&[("is_active", text("yes")), ("name", text("n"))]);
    assert_eq!(Project::decode(&wrong_flag), None);
    let wrong_optional =
        object(&[("is_active", Json::Bool(true)), ("name", text("n")), ("description", number(1))]);
    assert_eq!(Project::decode(&wrong_optional), None);
    let no_name = object(&[("is_active", Json::Bool(true))]);
    assert_eq!(Project::decode(&no_name), None);
    let null_name = object(&[("is_active", Json::Bool(true)), ("name", Json::Null)]);
    assert_eq!(Project::decode(&null_name), None);
}

#[test]
fn a_project_group_is_read_with_the_instant_of_its_creation() {
    let json = object(&[
        ("id", number(86)),
        ("name", text("starlingx")),
        ("title", text("StarlingX")),
        ("created_at", text("2018-01-26T18:30:09+00:00")),
    ]);
    assert_eq!(
        ProjectGroup::decode(&json),
        Some(ProjectGroup {
            id: 86,
            name: "starlingx".to_string(),
            title: "StarlingX".to_string(),
            created_at: at("2018-01-26T18:30:09+00:00", 1516991409, 0),
        })
    );
}

#[test]
fn a_project_group_with_no_date_in_created_at_is_not_read() {
    let json = object(&[
        ("id", number(86)),
        ("name", text("starlingx")),
        ("title", text("StarlingX")),
        ("created_at", text("yesterday")),
    ]);
    assert_eq!(ProjectGroup::decode(&json), None);
    let numbered = object(&[
        ("id", number(86)),
        ("name", text("starlingx")),
        ("title", text("StarlingX")),
        ("created_at", number(1516991409)),
    ]);
    assert_eq!(ProjectGroup::decode(&numbered), None);
}

#[test]
fn a_default_project_group_is_empty_and_created_now() {
    let group = ProjectGroup::default();
    assert_eq!(group.id, 0);
    assert_eq!(group.name, "");
    assert_eq!(group.title, "");
    assert!(group.created_at.seconds > 1_700_000_000);
    assert!(group.created_at.text.ends_with('Z'));
    assert_eq!(Timestamp::parse(&group.created_at.text), Some(group.created_at.clone()));
    let again = ProjectGroup::decode(&group.encode());
    assert_eq!(again, Some(group));
}

#[test]
fn a_project_group_is_created_at_the_time_it_is_given() {
    let now = at("2018-01-26T18:30:09Z", 1516991409, 0);
    assert_eq!(
        ProjectGroup::created(now.clone()),
        ProjectGroup { id: 0, name: String::new(), title: String::new(), created_at: now }
    );
    let odd = at("", 7, 8);
    assert_eq!(ProjectGroup::created(odd.clone()).created_at, odd);
}

#[test]
fn a_default_project_group_is_created_between_two_readings_of_the_clock() {
    let before = ProjectGroup::default().created_at;
    let group = ProjectGroup::default();
    let after = ProjectGroup::default().created_at;
    let stamp = |t: &Timestamp| (t.seconds, t.nanos);
    assert!(stamp(&before) <= stamp(&group.created_at));
    assert!(stamp(&group.created_at) <= stamp(&after));
    assert!(group.created_at.nanos < 1_000_000_000);
}

#[test]
fn a_default_story_is_empty() {
    let story = Story::default();
    assert_eq!(
        story,
        Story {
            creator_id: None,
            description: String::new(),
            due_dates: None,
            is_bug: false,
            private: false,
            status: String::new(),
            story_type_id: None,
            tags: vec![],
            task_statuses: vec![],
            teams: vec![],
            title: String::new(),
            users: vec![],
            id: 0,
        }
    );
}

#[test]
fn a_default_user_is_empty() {
    assert_eq!(
        User::default(),
        User {
            email: String::new(),
            enable_login: false,
            full_name: String::new(),
            is_superuser: false,
            openid: String::new(),
            id: 0,
        }
    );
}

#[test]
fn a_task_is_read_with_its_due_dates() {
    let json = object(&[
        ("assignee_id", number(4662)),
        ("branch_id", number(1)),
        ("creator_id", Json::Null),
        (
            "due_dates",
            Json::Array(vec![text("2018-01-26T18:30:09Z"), text("2019-03-04 05:06:07.5+01:00")]),
        ),
        ("link", text("https://storyboard.openstack.org/#!/story/19")),
        ("milestone_id", Json::Null),
        ("priority", text("medium")),
        ("project_id", number(456)),
        ("status", text("todo")),
        ("story_id", number(19)),
        ("title", text("Write the docs")),
    ]);
    assert_eq!(
        Task::decode(&json),
        Some(Task {
            assignee_id: Some(4662),
            branch_id: Some(1),
            creator_id: None,
            due_dates: Some(vec![
                at("2018-01-26T18:30:09Z", 1516991409, 0),
                at("2019-03-04 05:06:07.5+01:00", 1551672367, 500_000_000),
            ]),
            link: Some("https://storyboard.openstack.org/#!/story/19".to_string()),
            milestone_id: None,
            priority: Some("medium".to_string()),
            project_id: Some(456),
            status: Some("todo".to_string()),
            story_id: 19,
            title: "Write the docs".to_string(),
        })
    );
}

#[test]
fn a_task_needs_only_its_story_and_its_title() {
    let json = object(&[("story_id", number(19)), ("title", text("t"))]);
    assert_eq!(
        Task::decode(&json),
        Some(Task {
            assignee_id: None,
            branch_id: None,
            creator_id: None,
            due_dates: None,
            link: None,
            milestone_id: None,
            priority: None,
            project_id: None,
            status: None,
            story_id: 19,
            title: "t".to_string(),
        })
    );
    assert_eq!(Task::decode(&object(&[("title", text("t"))])), None);
    assert_eq!(Task::decode(&object(&[("story_id", number(19))])), None);
}

#[test]
fn a_task_with_a_due_date_that_is_no_date_is_not_read() {
    let json = object(&[
        ("story_id", number(19)),
        ("title", text("t")),
        ("due_dates", Json::Array(vec![text("2018-01-26T18:30:09Z"), text("soon")])),
    ]);
    assert_eq!(Task::decode(&json), None);
}

#[test]
fn a_status_count_is_read() {
    let json = object(&[("count", number(3)), ("key", text("todo"))]);
    assert_eq!(
        TaskStatusCount::decode(&json),
        Some(TaskStatusCount { count: Some(3), key: "todo".to_string() })
    );
    let bare = object(&[("key", text("merged"))]);
    assert_eq!(
        TaskStatusCount::decode(&bare),
        Some(TaskStatusCount { count: None, key: "merged".to_string() })
    );
    assert_eq!(TaskStatusCount::decode(&object(&[("count", number(3))])), None);
}

#[test]
fn a_team_is_read() {
    let json = object(&[
        ("updated_at", Json::Null),
        ("created_at", text("2016-04-19T13:28:54+00:00")),
        ("name", text("core")),
    ]);
    assert_eq!(
        Team::decode(&json),
        Some(Team {
            updated_at: None,
            created_at: at("2016-04-19T13:28:54+00:00", 1461072534, 0),
            name: "core".to_string(),
        })
    );
}

fn story() -> Story {
    Story {
        creator_id: Some(2),
        description: "Builds fail on \"stx\"\nsince Monday".to_string(),
        due_dates: Some(vec![3, 4]),
        is_bug: true,
        private: false,
        status: "active".to_string(),
        story_type_id: None,
        tags: vec!["stx.build".to_string(), "stx.2.0".to_string()],
        task_statuses: vec![
            TaskStatusCount { count: Some(2), key: "todo".to_string() },
            TaskStatusCount { count: None, key: "merged".to_string() },
        ],
        teams: vec![Team {
            updated_at: Some(at("2018-01-26T18:30:09Z", 1516991409, 0)),
            created_at: at("2016-04-19T13:28:54+00:00", 1461072534, 0),
            name: "core".to_string(),
        }],
        title: "Build is broken".to_string(),
        users: vec![erich()],
        id: 2002812,
    }
}

#[test]
fn a_story_is_read_with_all_that_is_nested_in_it() {
    let json = Json::parse(
        "{\"creator_id\": 2, \"description\": \"Builds fail on \\\"stx\\\"\\nsince Monday\",
          \"due_dates\": [3, 4], \"is_bug\": true, \"private\": false, \"status\": \"active\",
          \"story_type_id\": null, \"tags\": [\"stx.build\", \"stx.2.0\"],
          \"task_statuses\": [{\"count\": 2, \"key\": \"todo\"}, {\"key\": \"merged\"}],
          \"teams\": [{\"updated_at\": \"2018-01-26T18:30:09Z\",
                       \"created_at\": \"2016-04-19T13:28:54+00:00\", \"name\": \"core\"}],
          \"title\": \"Build is broken\",
          \"users\": [{\"email\": \"erich@example.org\", \"enable_login\": true,
                       \"full_name\": \"Erich Cordoba\", \"is_superuser\": false,
                       \"openid\": \"https://login.example.org/+id/abc\", \"id\": 4662}],
          \"id\": 2002812, \"updated_at\": null}",
    )
    .unwrap();
    assert_eq!(Story::decode(&json), Some(story()));
}

#[test]
fn a_story_needs_its_lists() {
    let json = object(&[
        ("description", text("d")),
        ("is_bug", Json::Bool(false)),
        ("private", Json::Bool(false)),
        ("status", text("active")),
        ("tags", Json::Array(vec![])),
        ("task_statuses", Json::Array(vec![])),
        ("teams", Json::Array(vec![])),
        ("title", text("t")),
        ("id", number(1)),
    ]);
    assert_eq!(Story::decode(&json), None);
}

#[test]
fn a_story_is_read_again_from_what_it_is_written_as() {
    let written = story().encode();
    assert_eq!(Story::decode(&written), Some(story()));
    let default = Story::default();
    assert_eq!(Story::decode(&default.encode()), Some(Story::default()));
}

#[test]
fn every_record_is_read_again_from_what_it_is_written_as() {
    let user = erich();
    assert_eq!(User::decode(&user.encode()), Some(erich()));
    let task = Task {
        assignee_id: Some(-1),
        branch_id: None,
        creator_id: Some(i32::MAX),
        due_dates: Some(vec![at("2020-02-29T00:00:00Z", 1582934400, 0)]),
        link: None,
        milestone_id: Some(i32::MIN),
        priority: None,
        project_id: None,
        status: Some(String::new()),
        story_id: 0,
        title: "t".to_string(),
    };
    assert_eq!(Task::decode(&task.encode()), Some(task));
    let project = Project {
        autocreate_branch: None,
        description: Some(String::new()),
        is_active: true,
        name: "n".to_string(),
        repo_url: None,
    };
    assert_eq!(Project::decode(&project.encode()), Some(project));
    let fault = ApiError {
        debuginfo: None,
        faultcode: Some("Client".to_string()),
        faultstring: Some("Not found".to_string()),
    };
    assert_eq!(ApiError::decode(&fault.encode()), Some(fault));
    let stories = vec![story(), Story::default()];
    assert_eq!(Vec::<Story>::decode(&stories.encode()), Some(stories));
}

#[test]
fn a_record_is_written_with_null_for_what_it_lacks() {
    let count = TaskStatusCount { count: None, key: "todo".to_string() };
    assert_eq!(
        count.encode(),
        Json::Object(vec![entry("count", Json::Null), entry("key", text("todo"))])
    );
    let team = Team {
        updated_at: None,
        created_at: at("2016-04-19T13:28:54+00:00", 1461072534, 0),
        name: "core".to_string(),
    };
    assert_eq!(
        team.encode(),
        Json::Object(vec![
            entry("updated_at", Json::Null),
            entry("created_at", text("2016-04-19T13:28:54+00:00")),
            entry("name", text("core")),
        ])
    );
}

#[test]
fn a_fault_is_any_object_whose_three_members_are_texts_or_missing() {
    let json = object(&[
        ("debuginfo", Json::Null),
        ("faultcode", text("Client")),
        ("faultstring", text("Story not found")),
    ]);
    assert_eq!(
        ApiError::decode(&json),
        Some(ApiError {
            debuginfo: None,
            faultcode: Some("Client".to_string()),
            faultstring: Some("Story not found".to_string()),
        })
    );
    assert_eq!(
        ApiError::decode(&object(&[])),
        Some(ApiError { debuginfo: None, faultcode: None, faultstring: None })
    );
    assert_eq!(ApiError::decode(&object(&[("faultcode", number(404))])), None);
    assert_eq!(ApiError::decode(&Json::Array(vec![])), None);
    assert_eq!(ApiError::decode(&Json::Null), None);
}

#[test]
fn an_envelope_is_read_as_the_payload_first_and_as_a_fault_second() {
    let payload = Json::Array(vec![erich_json()]);
    assert_eq!(
        ApiResult::<Vec<User>, ApiError>::decode(&payload),
        Some(ApiResult::Success(vec![erich()]))
    );
    let fault = object(&[("faultcode", text("Client"))]);
    assert_eq!(
        ApiResult::<Vec<User>, ApiError>::decode(&fault),
        Some(ApiResult::Fault(ApiError {
            debuginfo: None,
            faultcode: Some("Client".to_string()),
            faultstring: None,
        }))
    );
    assert_eq!(ApiResult::<Vec<User>, ApiError>::decode(&Json::Null), None);
    // An object that is both a user and a fault is the payload.
    assert_eq!(
        ApiResult::<User, ApiError>::decode(&erich_json()),
        Some(ApiResult::Success(erich()))
    );
}

#[test]
fn a_date_and_time_is_read_as_seconds_and_nanoseconds() {
    assert_eq!(Timestamp::parse("1970-01-01T00:00:00Z"), Some(at("1970-01-01T00:00:00Z", 0, 0)));
    assert_eq!(Timestamp::parse("1970-01-01T00:00:01Z"), Some(at("1970-01-01T00:00:01Z", 1, 0)));
    assert_eq!(
        Timestamp::parse("1969-12-31T23:59:59.25Z"),
        Some(at("1969-12-31T23:59:59.25Z", -1, 250_000_000))
    );
    assert_eq!(
        Timestamp::parse("2018-01-26T18:30:09+00:00"),
        Some(at("2018-01-26T18:30:09+00:00", 1516991409, 0))
    );
    assert_eq!(
        Timestamp::parse("2018-01-26T19:30:09+01:00"),
        Some(at("2018-01-26T19:30:09+01:00", 1516991409, 0))
    );
    assert_eq!(
        Timestamp::parse("2018-01-26 18:30:09Z"),
        Some(at("2018-01-26 18:30:09Z", 1516991409, 0))
    );
    assert_eq!(
        Timestamp::parse("2018-01-26T18:30:09.000000001Z"),
        Some(at("2018-01-26T18:30:09.000000001Z", 1516991409, 1))
    );
}

#[test]
fn what_is_no_date_and_time_is_not_read() {
    assert_eq!(Timestamp::parse(""), None);
    assert_eq!(Timestamp::parse("2018-01-26"), None);
    assert_eq!(Timestamp::parse("2018-01-26T18:30:09"), None);
    assert_eq!(Timestamp::parse("2018-13-26T18:30:09Z"), None);
    assert_eq!(Timestamp::parse("2018-02-30T18:30:09Z"), None);
    assert_eq!(Timestamp::parse("1516991409"), None);
}

#[test]
fn a_date_and_time_is_written_as_its_text() {
    let stamp = at("2018-01-26 18:30:09Z", 1516991409, 0);
    assert_eq!(stamp.encode(), text("2018-01-26 18:30:09Z"));
    assert_eq!(Timestamp::decode(&stamp.encode()), Some(stamp));
    assert_eq!(Timestamp::decode(&number(1516991409)), None);
}
