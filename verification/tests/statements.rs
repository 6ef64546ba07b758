use habitflow::commands::achievements::{
    achievement_from_row, achievement_insert_statement, decode_payload, encode_payload, Achievement,
    ACHIEVEMENT_INSERT,
};
use habitflow::commands::habits::{
    completion_from_row, completion_insert_statement, habit_from_row, habit_insert_statement,
    habit_update_statement, Habit, HabitCompletion, HabitUpdate, COMPLETION_INSERT, HABIT_DELETE,
    HABIT_INSERT,
};
use habitflow::commands::mood::{
    decode_tags, mood_from_row, mood_insert_statement, mood_update_statement, MoodEntry,
    MoodUpdate, MOOD_INSERT,
};
use habitflow::commands::pomodoro::{
    session_from_row, session_insert_statement, PomodoroSession, SESSION_INSERT,
};
use habitflow::db::{get_database_path, with_schema};
use habitflow::state::held;
use habitflow::{AppState, Database};
use std::sync::Mutex;
use habitflow::json::{flag_field, integer_field, text_field, written_field};
use habitflow::sql::{SqlValue, Statement};
use habitflow::store::{delete_statement, listed, written};
use habitflow::update::{
    assign_flag, assign_integer, assign_text, update_statement, Assignment,
};
use std::path::PathBuf;

fn text(s: &str) -> SqlValue {
    SqlValue::Text(s.to_string())
}

fn json(text: &str) -> serde_json::Value {
    serde_json::from_str(text).unwrap()
}

fn memory() -> rusqlite::Connection {
    rusqlite::Connection::open_in_memory().unwrap()
}

#[test]
fn values_bind_as_their_cells() {
    assert_eq!(SqlValue::text(&"a".to_string()), text("a"));
    assert_eq!(SqlValue::optional_text(&Some("a".to_string())), text("a"));
    assert_eq!(SqlValue::optional_text(&None), SqlValue::Null);
    assert_eq!(SqlValue::integer(-7), SqlValue::Integer(-7));
    assert_eq!(SqlValue::flag(true), SqlValue::Integer(1));
    assert_eq!(SqlValue::flag(false), SqlValue::Integer(0));
    assert_eq!(text("q").duplicate(), text("q"));
    assert_eq!(SqlValue::Null.duplicate(), SqlValue::Null);
    assert_eq!(SqlValue::Integer(3).duplicate(), SqlValue::Integer(3));
}

#[test]
fn habit_insert_binds_every_field_in_order() {
    let habit = Habit {
        id: "h1".to_string(),
        name: "Read".to_string(),
        description: None,
        icon: "book".to_string(),
        color: "#fff".to_string(),
        frequency: "daily".to_string(),
        target_count: 3,
        created_at: "2024-01-01".to_string(),
        archived: true,
    };
    let statement = habit_insert_statement(&habit);
    assert_eq!(statement.sql, HABIT_INSERT);
    assert_eq!(
        statement.params,
        vec![
            text("h1"),
            text("Read"),
            SqlValue::Null,
            text("book"),
            text("#fff"),
            text("daily"),
            SqlValue::Integer(3),
            text("2024-01-01"),
            SqlValue::Integer(1),
        ]
    );
}

#[test]
fn completion_insert_binds_every_field_in_order() {
    let completion = HabitCompletion {
        id: "c1".to_string(),
        habit_id: "h1".to_string(),
        completed_at: "2024-01-02".to_string(),
        count: 2,
        notes: Some("twice".to_string()),
    };
    let statement = completion_insert_statement(&completion);
    assert_eq!(statement.sql, COMPLETION_INSERT);
    assert_eq!(
        statement.params,
        vec![text("c1"), text("h1"), text("2024-01-02"), SqlValue::Integer(2), text("twice")]
    );
}

#[test]
fn mood_insert_binds_the_tags_as_json() {
    let entry = MoodEntry {
        id: "m1".to_string(),
        mood_level: 5,
        emoji: "e".to_string(),
        journal: None,
        tags: vec!["a".to_string(), "b \"c\"".to_string()],
        created_at: "2024-01-03".to_string(),
    };
    let statement = mood_insert_statement(&entry).unwrap();
    assert_eq!(statement.sql, MOOD_INSERT);
    assert_eq!(
        statement.params,
        vec![
            text("m1"),
            SqlValue::Integer(5),
            text("e"),
            SqlValue::Null,
            text(r#"["a","b \"c\""]"#),
            text("2024-01-03"),
        ]
    );
    let mut bare = entry;
    bare.tags = vec![];
    assert_eq!(mood_insert_statement(&bare).unwrap().params[4], text("[]"));
}

#[test]
fn session_insert_binds_every_field_in_order() {
    let session = PomodoroSession {
        id: "s1".to_string(),
        habit_id: None,
        duration: 25,
        session_type: "work".to_string(),
        completed: false,
        started_at: "s".to_string(),
        ended_at: Some("e".to_string()),
    };
    let statement = session_insert_statement(&session);
    assert_eq!(statement.sql, SESSION_INSERT);
    assert_eq!(
        statement.params,
        vec![
            text("s1"),
            SqlValue::Null,
            SqlValue::Integer(25),
            text("work"),
            SqlValue::Integer(0),
            text("s"),
            text("e"),
        ]
    );
}

#[test]
fn achievement_insert_binds_the_payload_as_json() {
    let mut achievement = Achievement {
        id: "a1".to_string(),
        achievement_type: "streak".to_string(),
        unlocked_at: "2024-01-04".to_string(),
        data: Some(json(r#" { "days" : 7 , "tags" : [ "x" ] } "#)),
    };
    let statement = achievement_insert_statement(&achievement);
    assert_eq!(statement.sql, ACHIEVEMENT_INSERT);
    assert_eq!(
        statement.params,
        vec![text("a1"), text("streak"), text("2024-01-04"), text(r#"{"days":7,"tags":["x"]}"#)]
    );
    achievement.data = None;
    assert_eq!(achievement_insert_statement(&achievement).params[3], SqlValue::Null);
}

#[test]
fn delete_binds_the_id_alone() {
    let statement = delete_statement(HABIT_DELETE, &"h1".to_string());
    assert_eq!(
        statement,
        Statement { sql: "DELETE FROM habits WHERE id = ?".to_string(), params: vec![text("h1")] }
    );
}

#[test]
fn update_names_the_assigned_columns_in_order() {
    let assignments = vec![
        Assignment { column: "a", value: text("x") },
        Assignment { column: "b", value: SqlValue::Integer(2) },
        Assignment { column: "c", value: SqlValue::Null },
    ];
    let statement = update_statement("things", &assignments, &"id-1".to_string()).unwrap();
    assert_eq!(statement.sql, "UPDATE things SET a = ?, b = ?, c = ? WHERE id = ?");
    assert_eq!(
        statement.params,
        vec![text("x"), SqlValue::Integer(2), SqlValue::Null, text("id-1")]
    );
    let single = vec![Assignment { column: "a", value: text("x") }];
    let statement = update_statement("things", &single, &"id-1".to_string()).unwrap();
    assert_eq!(statement.sql, "UPDATE things SET a = ? WHERE id = ?");
    assert_eq!(update_statement("things", &vec![], &"id-1".to_string()), None);
}

#[test]
fn assignments_are_added_only_for_present_values() {
    let mut list: Vec<Assignment> = vec![];
    assign_text(&mut list, "a", &None);
    assign_flag(&mut list, "b", None);
    assign_integer(&mut list, "c", None);
    assert_eq!(list, vec![]);
    assign_text(&mut list, "a", &Some("x".to_string()));
    assign_flag(&mut list, "b", Some(true));
    assign_integer(&mut list, "c", Some(-1));
    assert_eq!(
        list,
        vec![
            Assignment { column: "a", value: text("x") },
            Assignment { column: "b", value: SqlValue::Integer(1) },
            Assignment { column: "c", value: SqlValue::Integer(-1) },
        ]
    );
}

#[test]
fn habit_update_sets_the_filled_slots() {
    let id = "h1".to_string();
    let update = HabitUpdate {
        name: Some("Write".to_string()),
        description: None,
        icon: Some("pen".to_string()),
        color: None,
        archived: Some(false),
    };
    let statement = habit_update_statement(&id, &update).unwrap();
    assert_eq!(statement.sql, "UPDATE habits SET name = ?, icon = ?, archived = ? WHERE id = ?");
    assert_eq!(statement.params, vec![text("Write"), text("pen"), SqlValue::Integer(0), text("h1")]);
    let all = HabitUpdate {
        name: Some("n".to_string()),
        description: Some("d".to_string()),
        icon: Some("i".to_string()),
        color: Some("c".to_string()),
        archived: Some(true),
    };
    let statement = habit_update_statement(&id, &all).unwrap();
    assert_eq!(
        statement.sql,
        "UPDATE habits SET name = ?, description = ?, icon = ?, color = ?, archived = ? WHERE id = ?"
    );
    assert_eq!(
        statement.params,
        vec![text("n"), text("d"), text("i"), text("c"), SqlValue::Integer(1), text("h1")]
    );
    let nothing =
        HabitUpdate { name: None, description: None, icon: None, color: None, archived: None };
    assert_eq!(habit_update_statement(&id, &nothing), None);
}

#[test]
fn mood_update_sets_the_filled_slots() {
    let id = "m1".to_string();
    let update = MoodUpdate {
        mood_level: Some(2),
        emoji: None,
        journal: Some("j".to_string()),
        tags: Some("[\"a\"]".to_string()),
    };
    let statement = mood_update_statement(&id, &update).unwrap();
    assert_eq!(
        statement.sql,
        "UPDATE mood_entries SET mood_level = ?, journal = ?, tags = ? WHERE id = ?"
    );
    assert_eq!(
        statement.params,
        vec![SqlValue::Integer(2), text("j"), text("[\"a\"]"), text("m1")]
    );
    let only = MoodUpdate { mood_level: None, emoji: Some("e".to_string()), journal: None, tags: None };
    let statement = mood_update_statement(&id, &only).unwrap();
    assert_eq!(statement.sql, "UPDATE mood_entries SET emoji = ? WHERE id = ?");
    let nothing = MoodUpdate { mood_level: None, emoji: None, journal: None, tags: None };
    assert_eq!(mood_update_statement(&id, &nothing), None);
}

#[test]
fn habit_update_reads_recognized_fields_of_the_right_type() {
    let fields = json(
        r##"{"name":"Write","description":"d","icon":"pen","color":"#000","archived":true,"frequency":"weekly"}"##,
    );
    assert_eq!(
        HabitUpdate::from_json(&fields),
        HabitUpdate {
            name: Some("Write".to_string()),
            description: Some("d".to_string()),
            icon: Some("pen".to_string()),
            color: Some("#000".to_string()),
            archived: Some(true),
        }
    );
    let nothing =
        HabitUpdate { name: None, description: None, icon: None, color: None, archived: None };
    assert_eq!(HabitUpdate::from_json(&json(r#"{"name":1,"archived":"true","icon":null}"#)), nothing);
    assert_eq!(HabitUpdate::from_json(&json(r#"["name"]"#)), nothing);
    assert_eq!(HabitUpdate::from_json(&json(r#""name""#)), nothing);
}

#[test]
fn mood_update_reads_recognized_fields_of_the_right_type() {
    let fields = json(r#"{"moodLevel":-2,"emoji":"e","journal":"j","tags":["a","a"],"id":"x"}"#);
    assert_eq!(
        MoodUpdate::from_json(&fields),
        MoodUpdate {
            mood_level: Some(-2),
            emoji: Some("e".to_string()),
            journal: Some("j".to_string()),
            tags: Some(r#"["a","a"]"#.to_string()),
        }
    );
    let odd = json(r#"{"moodLevel":"3","mood_level":3,"emoji":false,"tags":{"k":null}}"#);
    assert_eq!(
        MoodUpdate::from_json(&odd),
        MoodUpdate {
            mood_level: None,
            emoji: None,
            journal: None,
            tags: Some(r#"{"k":null}"#.to_string()),
        }
    );
    let wide = json(r#"{"moodLevel":-4294967295}"#);
    assert_eq!(MoodUpdate::from_json(&wide).mood_level, Some(1));
    let huge = json(r#"{"moodLevel":18446744073709551615}"#);
    assert_eq!(MoodUpdate::from_json(&huge).mood_level, None);
}

#[test]
fn fields_are_read_by_name_and_type() {
    let fields = json(r#"{"t":"text","f":false,"i":-9,"r":1.5,"n":null,"o":{"a":[1,"b"]}}"#);
    assert_eq!(text_field(&fields, "t"), Some("text".to_string()));
    assert_eq!(text_field(&fields, "f"), None);
    assert_eq!(text_field(&fields, "missing"), None);
    assert_eq!(flag_field(&fields, "f"), Some(false));
    assert_eq!(flag_field(&fields, "t"), None);
    assert_eq!(integer_field(&fields, "i"), Some(-9));
    assert_eq!(integer_field(&fields, "r"), None);
    assert_eq!(written_field(&fields, "o"), Some(r#"{"a":[1,"b"]}"#.to_string()));
    assert_eq!(written_field(&fields, "t"), Some(r#""text""#.to_string()));
    assert_eq!(written_field(&fields, "n"), Some("null".to_string()));
    assert_eq!(written_field(&fields, "missing"), None);
    assert_eq!(text_field(&json("3"), "t"), None);
}

#[test]
fn tags_decode_leniently() {
    assert_eq!(decode_tags(&Some(r#"["a","b","a"]"#.to_string())), vec!["a", "b", "a"]);
    assert_eq!(decode_tags(&Some("[]".to_string())), Vec::<String>::new());
    assert_eq!(decode_tags(&Some("[1,2]".to_string())), Vec::<String>::new());
    assert_eq!(decode_tags(&Some("oops".to_string())), Vec::<String>::new());
    assert_eq!(decode_tags(&Some(String::new())), Vec::<String>::new());
    assert_eq!(decode_tags(&None), Vec::<String>::new());
}

#[test]
fn payloads_encode_and_decode() {
    assert_eq!(encode_payload(&None), None);
    assert_eq!(encode_payload(&Some(json(" [1, 2] "))), Some("[1,2]".to_string()));
    assert_eq!(decode_payload(&None), None);
    assert_eq!(decode_payload(&Some("{\"a\":1}".to_string())), Some(json("{\"a\":1}")));
    assert_eq!(decode_payload(&Some("{\"a\":".to_string())), None);
    assert_eq!(decode_payload(&Some(String::new())), None);
}

#[test]
fn outcomes_of_the_engine_become_results() {
    assert_eq!(written(Ok(0)), Ok(()));
    assert_eq!(written(Ok(3)), Ok(()));
    assert_eq!(
        written(Err(rusqlite::Error::QueryReturnedNoRows)),
        Err(rusqlite::Error::QueryReturnedNoRows.to_string())
    );
    assert_eq!(listed(Ok(vec![1, 2])), Ok(vec![1, 2]));
    assert_eq!(
        listed::<u8>(Err(rusqlite::Error::InvalidQuery)),
        Err(rusqlite::Error::InvalidQuery.to_string())
    );
}

#[test]
fn rows_decode_by_column_type() {
    let conn = memory();
    let habit = conn
        .query_row("SELECT 'h', 'n', NULL, 'i', 'c', 'f', 2, 't', 5", [], |row| habit_from_row(row))
        .unwrap();
    assert_eq!(
        habit,
        Habit {
            id: "h".to_string(),
            name: "n".to_string(),
            description: None,
            icon: "i".to_string(),
            color: "c".to_string(),
            frequency: "f".to_string(),
            target_count: 2,
            created_at: "t".to_string(),
            archived: true,
        }
    );
    let completion = conn
        .query_row("SELECT 'c', 'h', 't', -4, 'note'", [], |row| completion_from_row(row))
        .unwrap();
    assert_eq!(
        completion,
        HabitCompletion {
            id: "c".to_string(),
            habit_id: "h".to_string(),
            completed_at: "t".to_string(),
            count: -4,
            notes: Some("note".to_string()),
        }
    );
    let entry = conn
        .query_row("SELECT 'm', 3, 'e', 'j', '[\"a\"]', 't'", [], |row| mood_from_row(row))
        .unwrap();
    assert_eq!(entry.tags, vec!["a"]);
    assert_eq!(entry.journal, Some("j".to_string()));
    let session = conn
        .query_row("SELECT 's', NULL, 25, 'work', 0, 's', NULL", [], |row| session_from_row(row))
        .unwrap();
    assert_eq!(
        session,
        PomodoroSession {
            id: "s".to_string(),
            habit_id: None,
            duration: 25,
            session_type: "work".to_string(),
            completed: false,
            started_at: "s".to_string(),
            ended_at: None,
        }
    );
    let achievement = conn
        .query_row("SELECT 'a', 'k', 't', '[1'", [], |row| achievement_from_row(row))
        .unwrap();
    assert_eq!(achievement.data, None);
    assert_eq!(achievement.achievement_type, "k");
}

#[test]
fn a_flag_is_true_for_every_stored_integer_but_zero() {
    let conn = memory();
    let stored: [(i64, bool); 8] = [
        (0, false),
        (1, true),
        (2, true),
        (-1, true),
        (4294967296, true),
        (5000000000, true),
        (i64::MAX, true),
        (i64::MIN, true),
    ];
    for (n, expected) in stored {
        let sql = format!("SELECT 'h', 'n', NULL, 'i', 'c', 'f', 2, 't', {}", n);
        let habit = conn.query_row(&sql, [], |row| habit_from_row(row)).unwrap();
        assert_eq!(habit.archived, expected, "{}", n);
        let sql = format!("SELECT 's', NULL, 25, 'work', {}, 't', NULL", n);
        let session = conn.query_row(&sql, [], |row| session_from_row(row)).unwrap();
        assert_eq!(session.completed, expected, "{}", n);
    }
}

#[test]
fn the_schema_outcome_decides_the_opening() {
    let db = Database::new(&PathBuf::from(":memory:")).unwrap();
    assert!(with_schema(db, Ok(())).is_ok());
    let db = Database::new(&PathBuf::from(":memory:")).unwrap();
    match with_schema(db, Err(rusqlite::Error::InvalidQuery)) {
        Err(failure) => assert_eq!(failure, rusqlite::Error::InvalidQuery),
        Ok(_) => panic!("a failed script gave a database"),
    }
}

#[test]
fn a_taken_lock_is_handed_on() {
    let db = Database::new(&PathBuf::from(":memory:")).unwrap();
    let state = AppState { db: Mutex::new(db) };
    let taken = held(state.db.lock());
    assert!(taken.is_ok());
    assert!(taken.unwrap().initialize().is_ok());
}

#[test]
fn rows_with_a_column_of_the_wrong_type_do_not_decode() {
    let conn = memory();
    let bad = [
        "SELECT NULL, 'n', NULL, 'i', 'c', 'f', 2, 't', 0",
        "SELECT 'h', 7, NULL, 'i', 'c', 'f', 2, 't', 0",
        "SELECT 'h', 'n', 1.5, 'i', 'c', 'f', 2, 't', 0",
        "SELECT 'h', 'n', NULL, 'i', 'c', 'f', '2', 't', 0",
        "SELECT 'h', 'n', NULL, 'i', 'c', 'f', 2147483648, 't', 0",
        "SELECT 'h', 'n', NULL, 'i', 'c', 'f', 2, 't', NULL",
        "SELECT 'h', 'n', NULL, 'i', 'c', 'f', 2, 't', 'yes'",
        "SELECT 'h', 'n', NULL, 'i', 'c', 'f', 2, 't', 1.0",
        "SELECT 'h', 'n', NULL, 'i', 'c', 'f', 2, x'00', 0",
        "SELECT 'h', 'n', NULL, 'i', 'c', 'f', 2, 't'",
        "SELECT CAST(x'ff' AS TEXT), 'n', NULL, 'i', 'c', 'f', 2, 't', 0",
    ];
    for sql in bad {
        assert!(conn.query_row(sql, [], |row| habit_from_row(row)).is_err(), "{}", sql);
    }
    assert!(conn.query_row("SELECT 'm', 3, 'e', 'j', 5, 't'", [], |row| mood_from_row(row)).is_err());
    assert!(conn.query_row("SELECT 'a', 'k', 't', 9", [], |row| achievement_from_row(row)).is_err());
    assert!(conn.query_row("SELECT 'a', 'k', 't'", [], |row| achievement_from_row(row)).is_err());
    assert!(conn
        .query_row("SELECT 's', NULL, 25, 'work', 'no', 's', NULL", [], |row| session_from_row(row))
        .is_err());
    assert!(conn.query_row("SELECT 'c', 'h', 't', NULL, NULL", [], |row| completion_from_row(row)).is_err());
}

#[test]
fn the_database_lies_in_the_application_folder() {
    let under = get_database_path(Some(PathBuf::from("/home/u/.local/share")));
    assert_eq!(
        under,
        PathBuf::from("/home/u/.local/share").join("habitflow").join("habitflow.db")
    );
    assert_eq!(get_database_path(None), PathBuf::from(".").join("habitflow").join("habitflow.db"));
}
