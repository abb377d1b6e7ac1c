use yap::todo::enums::{Day, Priority, RelationAction};
use yap::todo::cli::{CreateTask, DeleteTask, ReadTask, TaskCommands, UpdateTask};
use yap::todo::tasks::{Task, TasksFile};
use yap::todo::zenity::Zenity;

fn text(s: &str) -> String {
    s.to_string()
}

fn names(list: &[&str]) -> Vec<String> {
    list.iter().map(|s| s.to_string()).collect()
}

fn task(title: &str) -> Task {
    Task::new(
        text(title),
        text(""),
        text(""),
        text(""),
        Priority::Low,
        None,
        Vec::new(),
    )
}

#[test]
fn priorities_are_read_from_numbers() {
    assert_eq!(Priority::parse("0"), Ok(Priority::High));
    assert_eq!(Priority::parse("1"), Ok(Priority::Medium));
    assert_eq!(Priority::parse("2"), Ok(Priority::Low));
    assert_eq!(Priority::parse("+2"), Ok(Priority::Low));
    assert_eq!(Priority::parse("3"), Err(text("invalid priority value: 3")));
    assert_eq!(Priority::parse("high"), Err(text("invalid priority value: high")));
    assert_eq!(Priority::parse(""), Err(text("invalid priority value: ")));
    assert_eq!(Priority::default(), Priority::Low);
    assert_eq!("1".parse::<Priority>(), Ok(Priority::Medium));
    assert_eq!("x".parse::<Priority>(), Err(text("invalid priority value: x")));
    assert_eq!("0".parse::<Day>(), Ok(Day::Sunday));
    assert_eq!("9".parse::<Day>(), Err(text("invalid priority value: 9")));
    assert_ne!(RelationAction::Add, RelationAction::Remove);
}

#[test]
fn priorities_have_icons() {
    assert_eq!(Priority::High.to_dialog_alarm(), "dialog-warning");
    assert_eq!(Priority::Medium.to_dialog_alarm(), "dialog-information");
    assert_eq!(Priority::Low.to_dialog_alarm(), "dialog-question");
}

#[test]
fn days_are_read_from_numbers_and_numbered_from_monday() {
    let days = [
        Day::Sunday,
        Day::Monday,
        Day::Tuesday,
        Day::Wednesday,
        Day::Thursday,
        Day::Friday,
        Day::Saturday,
    ];
    for (i, d) in days.iter().enumerate() {
        assert_eq!(Day::parse(&i.to_string()), Ok(*d));
    }
    assert_eq!(Day::parse("7"), Err(text("invalid priority value: 7")));
    assert_eq!(Day::parse("-1"), Err(text("invalid priority value: -1")));
    assert_eq!(Day::Monday.get_digit(), 1);
    assert_eq!(Day::Tuesday.get_digit(), 2);
    assert_eq!(Day::Wednesday.get_digit(), 3);
    assert_eq!(Day::Thursday.get_digit(), 4);
    assert_eq!(Day::Friday.get_digit(), 5);
    assert_eq!(Day::Saturday.get_digit(), 6);
    assert_eq!(Day::Sunday.get_digit(), 7);
}

#[test]
fn a_new_task_is_not_done_and_has_no_number() {
    let mut t = Task::new(
        text("write"),
        text("the report"),
        text("09:00"),
        text("10:30"),
        Priority::High,
        Some(3),
        vec![Day::Monday, Day::Friday],
    );
    assert_eq!(t.id, 0);
    assert!(!t.done);
    assert_eq!(t.title, "write");
    assert_eq!(t.description, "the report");
    assert_eq!(t.priority, Priority::High);
    assert_eq!(t.after, Some(3));
    assert!(!t.is_one_off());
    assert_eq!(t.summary(), "The task write is due 09:00");
    t.set_id(12);
    assert_eq!(t.id, 12);
    assert_eq!(t.title, "write");
    assert_eq!(t.clone(), t);
    let mut once = task("call");
    assert!(once.is_one_off());
    once.end = text("2024-01-01");
    assert_eq!(once.summary(), "The task call is due 2024-01-01");
    assert_eq!(task("x").summary(), "The task x is due ");
}

#[test]
fn tasks_take_the_next_number() {
    let mut file = TasksFile::default();
    assert_eq!(file.get_latest_id(), 1);
    assert_eq!(file.add_many(vec![task("a"), task("b")]), 0);
    assert_eq!(file.objects.len(), 2);
    assert_eq!(file.objects[&1].id, 1);
    assert_eq!(file.objects[&1].title, "a");
    assert_eq!(file.objects[&2].id, 2);
    assert_eq!(file.objects[&2].title, "b");
    assert_eq!(file.get_latest_id(), 3);
    let mut far = task("far");
    far.id = 40;
    file.objects.insert(40, far);
    assert_eq!(file.get_latest_id(), 41);
    assert_eq!(file.add_many(Vec::new()), 0);
    assert_eq!(file.objects.len(), 3);
    file.add(task("c"));
    assert_eq!(file.objects[&41].title, "c");
    assert_eq!(file.objects[&41].id, 41);
}

#[test]
fn no_task_is_added_once_the_numbers_run_out() {
    let mut file = TasksFile::default();
    let mut last = task("last");
    last.id = i16::MAX;
    file.objects.insert(i16::MAX, last);
    assert_eq!(file.get_latest_id(), i16::MAX);
    assert_eq!(file.add_many(vec![task("more")]), 0);
    assert_eq!(file.objects.len(), 1);
    assert_eq!(file.objects[&i16::MAX].title, "last");
}

#[test]
fn tasks_are_deleted_by_number_or_by_title() {
    let mut file = TasksFile::default();
    file.add_many(vec![task("a"), task("b"), task("c")]);
    assert_eq!(file.delete_by_id(7), 1);
    assert_eq!(file.objects.len(), 3);
    assert_eq!(file.delete_by_id(2), 0);
    assert_eq!(file.objects.len(), 2);
    assert!(!file.objects.contains_key(&2));
    assert_eq!(file.delete_by_title(text("b")), 1);
    assert_eq!(file.delete_by_title(text("c")), 0);
    assert!(!file.objects.contains_key(&3));
    assert_eq!(file.delete(Some(1), Some(text("zzz"))), 0);
    assert_eq!(file.objects.len(), 0);
    assert_eq!(file.delete(None, Some(text("a"))), 1);
    let gone = DeleteTask { id: Some(1), title: None };
    assert_eq!(gone.run(&mut file), 1);
    file.add(task("again"));
    let by_title = DeleteTask { id: None, title: Some(text("again")) };
    assert_eq!(by_title.run(&mut file), 0);
    assert_eq!(file.objects.len(), 0);
}

#[test]
fn a_created_task_takes_what_the_command_names() {
    let mut file = TasksFile::default();
    let create = CreateTask {
        title: text("write"),
        description: None,
        start: Some(text("09:00")),
        end: None,
        priority: Priority::Medium,
        one_off: true,
        days: Some(vec![Day::Monday]),
        after: Some(4),
    };
    assert_eq!(create.run(&mut file), 0);
    let made = &file.objects[&1];
    assert_eq!(made.id, 1);
    assert_eq!(made.title, "write");
    assert_eq!(made.description, "");
    assert_eq!(made.start, "09:00");
    assert_eq!(made.end, "");
    assert_eq!(made.priority, Priority::Medium);
    assert!(!made.done);
    assert_eq!(made.days, vec![Day::Monday]);
    assert_eq!(made.after, Some(4));
}

#[test]
fn an_update_changes_only_what_it_names() {
    let mut file = TasksFile::default();
    file.add_many(vec![task("a"), task("b")]);
    let update = UpdateTask {
        id: 2,
        title: Some(text("B")),
        description: None,
        start: None,
        end: Some(text("12:00")),
        priority: Some(Priority::High),
        done: Some(true),
        days: Some(vec![Day::Friday]),
        after: Some(9),
    };
    let mut expected = task("B");
    expected.id = 2;
    expected.end = text("12:00");
    expected.priority = Priority::High;
    expected.done = true;
    expected.days = vec![Day::Friday];
    assert_eq!(update.updated(&file.objects[&2]), expected);
    assert_eq!(update.run(&mut file), 0);
    assert_eq!(file.objects[&2], expected);
    assert_eq!(file.objects[&1].title, "a");
    let nobody = UpdateTask {
        id: 9,
        title: Some(text("x")),
        description: None,
        start: None,
        end: None,
        priority: None,
        done: None,
        days: None,
        after: None,
    };
    let before = file.objects.clone();
    assert_eq!(nobody.run(&mut file), 0);
    assert_eq!(file.objects, before);
}

#[test]
fn a_read_shows_the_tasks_asked_for() {
    let mut file = TasksFile::default();
    file.add_many(vec![task("a"), task("b"), task("c")]);
    file.objects.get_mut(&2).unwrap().done = true;
    let read = |done: Option<bool>| ReadTask {
        all: true,
        id: None,
        title: None,
        start: None,
        end: None,
        priority: None,
        days: None,
        done,
    };
    assert_eq!(read(None).run(&file), file.objects);
    let done = read(Some(true)).run(&file);
    assert_eq!(done.len(), 1);
    assert_eq!(done[&2].title, "b");
    let open = read(Some(false)).run(&file);
    assert_eq!(open.len(), 2);
    assert!(open.contains_key(&1) && open.contains_key(&3));
}

#[test]
fn commands_answer_zero() {
    let mut file = TasksFile::default();
    file.add_many(vec![task("a")]);
    let delete = TaskCommands::Delete(DeleteTask { id: Some(5), title: None });
    assert_eq!(delete.handle_commands(&mut file), 0);
    assert_eq!(file.objects.len(), 1);
    let delete = TaskCommands::Delete(DeleteTask { id: Some(1), title: None });
    assert_eq!(delete.handle_commands(&mut file), 0);
    assert_eq!(file.objects.len(), 0);
    let create = TaskCommands::Create(CreateTask {
        title: text("n"),
        description: None,
        start: None,
        end: None,
        priority: Priority::Low,
        one_off: true,
        days: None,
        after: None,
    });
    assert_eq!(create.handle_commands(&mut file), 0);
    assert_eq!(file.objects[&1].title, "n");
}

#[test]
fn dialogs_are_command_lines() {
    let z = Zenity::new();
    assert_eq!(z.icon, "");
    assert_eq!(z.width, "21");
    assert_eq!(z.height, "74");
    assert_eq!(z.timeout, "");
    let window = |title: &str| {
        names(&[
            "--window-icon",
            "",
            "--width",
            "21",
            "--height",
            "74",
            "--timeout",
            "",
            "--title",
            title,
        ])
    };
    let with = |title: &str, rest: &[&str]| {
        let mut all = window(title);
        all.extend(names(rest));
        all
    };
    assert_eq!(z.show_input("name?"), with("name?", &["--entry", "--text", "name?"]));
    assert_eq!(z.show_message("hello"), with("hello", &["--info", "--text", "hello"]));
    assert_eq!(z.show_password("pw"), with("pw", &["--password"]));
    assert_eq!(z.show_question("ok?"), with("ok?", &["--question", "--text", "ok?"]));
    assert_eq!(z.execute(names(&["--x"]), "t"), with("t", &["--x"]));
}
