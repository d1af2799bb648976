use serde_json::Value;
use turtl_core::dispatch::{
    answer, frame, int_of_json_text, is_event, plan_event, plan_request, process, route_event, route_request, Call,
    Command, DispatchError, EventCall, EventKind, Frame, Outcome, PlanError, Route,
};
use turtl_core::json::Json;
use turtl_core::keychain::SyncAction;

fn s(text: &str) -> String {
    text.to_string()
}

fn v(text: &str) -> Value {
    serde_json::from_str(text).unwrap()
}

fn to_json(v: Value) -> Json {
    match v {
        Value::Null => Json::Null,
        Value::Bool(b) => Json::Bool(b),
        Value::Number(n) => Json::Number(n.to_string()),
        Value::String(s) => Json::Str(s),
        Value::Array(items) => Json::Array(items.into_iter().map(to_json).collect()),
        Value::Object(m) => Json::Object(m.into_iter().map(|(k, v)| (k, to_json(v))).collect()),
    }
}

fn from_json(j: &Json) -> Value {
    match j {
        Json::Null => Value::Null,
        Json::Bool(b) => Value::Bool(*b),
        Json::Number(t) => serde_json::from_str(t).unwrap(),
        Json::Str(s) => Value::String(s.clone()),
        Json::Array(items) => Value::Array(items.iter().map(from_json).collect()),
        Json::Object(m) => Value::Object(m.iter().map(|(k, v)| (k.clone(), from_json(v))).collect()),
    }
}

fn plan(cmd: &str, msg: Value) -> Result<Call, PlanError> {
    plan_request(Command::from_name(cmd).unwrap(), &to_json(msg))
}

#[test]
fn command_names_are_recognized() {
    assert_eq!(Command::from_name("user:login").unwrap(), Command::UserLogin);
    assert_eq!(Command::from_name("profile:space:delete-invite").unwrap(), Command::ProfileSpaceDeleteInvite);
    assert_eq!(Command::from_name("profile:delete-invite").unwrap(), Command::ProfileDeleteInvite);
    assert_eq!(Command::from_name("sync:pause").unwrap(), Command::SyncPause);
    assert_eq!(Command::from_name("clip").unwrap(), Command::Clip);
    assert_eq!(Command::from_name("ping").unwrap(), Command::Ping);
    assert_eq!(Command::from_name("app:api:set-endpoint").unwrap(), Command::AppApiSetEndpoint);
}

#[test]
fn unknown_command_is_refused_with_its_name() {
    for name in ["", "pong", "user:login ", "USER:LOGIN", "sync"] {
        assert_eq!(Command::from_name(name), Err(DispatchError::MissingCommand(s(name))));
    }
}

#[test]
fn event_names_are_recognized() {
    assert_eq!(EventKind::from_name(s("sync:connected")), EventKind::SyncConnected);
    assert_eq!(EventKind::from_name(s("sync:incoming")), EventKind::SyncIncoming);
    assert_eq!(EventKind::from_name(s("user:edit")), EventKind::UserEdit);
    assert_eq!(EventKind::from_name(s("user:change-password:logout")), EventKind::ChangePasswordLogout);
    assert_eq!(EventKind::from_name(s("space:delete")), EventKind::SpaceDelete);
    assert_eq!(EventKind::from_name(s("space:create")), EventKind::Unknown(s("space:create")));
}

#[test]
fn event_marker_is_detected() {
    assert!(is_event("::ev{}"));
    assert!(is_event("::ev"));
    assert!(!is_event("[\"1\",\"ping\"]"));
    assert!(!is_event(":ev:"));
}

#[test]
fn frame_gives_the_text_to_read() {
    match frame("::ev{\"e\":\"x\"}") {
        Frame::Event(t) => assert_eq!(t, "{\"e\":\"x\"}"),
        other => panic!("unexpected {:?}", other),
    }
    match frame("[\"m\",\"ping\"]") {
        Frame::Request(t) => assert_eq!(t, "[\"m\",\"ping\"]"),
        other => panic!("unexpected {:?}", other),
    }
    match frame("::evé") {
        Frame::Event(t) => assert_eq!(t, "é"),
        other => panic!("unexpected {:?}", other),
    }
}

#[test]
fn request_is_routed() {
    let msg = to_json(v(r#"["m1", "user:login", "name", "pw"]"#));
    match route_request(msg).unwrap() {
        Route::Request { mid, command, data } => {
            assert_eq!(mid, s("m1"));
            assert_eq!(command.unwrap(), Command::UserLogin);
            assert_eq!(from_json(&data), v(r#"["m1", "user:login", "name", "pw"]"#));
        }
        other => panic!("unexpected {:?}", other),
    }
}

#[test]
fn unknown_command_is_answered_with_an_error() {
    match route_request(to_json(v(r#"["m2", "no:such"]"#))).unwrap() {
        Route::Request { mid, command, .. } => {
            assert_eq!(mid, s("m2"));
            assert_eq!(command, Err(DispatchError::MissingCommand(s("no:such"))));
        }
        other => panic!("unexpected {:?}", other),
    }
}

#[test]
fn request_without_id_or_command_fails() {
    for (msg, want) in [
        (v(r#"[]"#), "missing mid (0)"),
        (v(r#"[12, "ping"]"#), "missing mid (0)"),
        (v(r#"{"0": "m", "1": "ping"}"#), "missing mid (0)"),
        (v(r#""m""#), "missing mid (0)"),
        (v(r#"["m"]"#), "missing cmd (1)"),
        (v(r#"["m", false]"#), "missing cmd (1)"),
    ] {
        match route_request(to_json(msg.clone())) {
            Err(DispatchError::MissingField(m)) => assert_eq!(m, want),
            other => panic!("unexpected {:?} for {}", other, msg),
        }
    }
}

#[test]
fn process_reports_unreadable_text() {
    let f = frame("[\"m\", \"ping\"");
    match process(&f, Err(s("EOF while parsing"))) {
        Err(e) => assert_eq!(e, DispatchError::Json(s("EOF while parsing"))),
        other => panic!("unexpected {:?}", other),
    }
}

#[test]
fn process_routes_by_frame() {
    let f = frame("[\"m9\",\"ping\"]");
    match process(&f, Ok(to_json(v(r#"["m9", "ping"]"#)))).unwrap() {
        Route::Request { mid, command, .. } => {
            assert_eq!(mid, s("m9"));
            assert_eq!(command.unwrap(), Command::Ping);
        }
        other => panic!("unexpected {:?}", other),
    }
    let f = frame("::ev{\"e\":\"sync:connected\",\"d\":true}");
    match process(&f, Ok(to_json(v(r#"{"e": "sync:connected", "d": true}"#)))).unwrap() {
        Route::Event { kind, data } => {
            assert_eq!(kind, EventKind::SyncConnected);
            assert_eq!(from_json(&data), v(r#"true"#));
        }
        other => panic!("unexpected {:?}", other),
    }
}

#[test]
fn event_is_routed() {
    match route_event(&to_json(v(r#"{"e": "other", "d": [1]}"#))).unwrap() {
        Route::Event { kind, data } => {
            assert_eq!(kind, EventKind::Unknown(s("other")));
            assert_eq!(from_json(&data), v(r#"[1]"#));
        }
        other => panic!("unexpected {:?}", other),
    }
}

#[test]
fn event_without_name_or_data_fails() {
    assert_eq!(
        route_event(&to_json(v(r#"{"d": 1}"#))).err(),
        Some(DispatchError::MissingField(s("missing event name (e)")))
    );
    assert_eq!(
        route_event(&to_json(v(r#"{"e": 3, "d": 1}"#))).err(),
        Some(DispatchError::MissingField(s("missing event name (e)")))
    );
    assert_eq!(
        route_event(&to_json(v(r#"{"e": "user:edit"}"#))).err(),
        Some(DispatchError::MissingField(s("missing event data (d)")))
    );
}

#[test]
fn request_arguments_follow_id_and_command() {
    match plan("user:login", v(r#"["m", "user:login", "me", "secret"]"#)).unwrap() {
        Call::UserLogin { username, password } => {
            assert_eq!(username, s("me"));
            assert_eq!(password, s("secret"));
        }
        other => panic!("unexpected {:?}", other),
    }
    assert_eq!(plan("user:login", v(r#"["m", "user:login", "me"]"#)).err(), Some(PlanError::MissingArgument(3)));
    assert_eq!(plan("user:login", v(r#"["m", "user:login", 5, "pw"]"#)).err(), Some(PlanError::BadArgument(2)));
    assert!(matches!(plan("ping", v(r#"["m", "ping"]"#)), Ok(Call::Ping)));
    assert!(matches!(plan("sync:status", v(r#"["m", "sync:status", 1]"#)), Ok(Call::SyncStatus)));
}

#[test]
fn get_tags_reads_texts_and_an_integer() {
    match plan("profile:get-tags", v(r#"["m", "c", "sp", ["b1", "b2"], 7]"#)).unwrap() {
        Call::ProfileGetTags { space_id, boards, limit } => {
            assert_eq!(space_id, s("sp"));
            assert_eq!(boards, vec![s("b1"), s("b2")]);
            assert_eq!(limit, 7);
        }
        other => panic!("unexpected {:?}", other),
    }
    assert_eq!(plan("profile:get-tags", v(r#"["m", "c", "sp", ["b1", 2], 7]"#)).err(), Some(PlanError::BadArgument(3)));
    assert_eq!(plan("profile:get-tags", v(r#"["m", "c", "sp", "b1", 7]"#)).err(), Some(PlanError::BadArgument(3)));
    assert_eq!(plan("profile:get-tags", v(r#"["m", "c", "sp", [], 1.5]"#)).err(), Some(PlanError::BadArgument(4)));
    assert_eq!(
        plan("profile:get-tags", v(r#"["m", "c", "sp", [], 2147483648]"#)).err(),
        Some(PlanError::BadArgument(4))
    );
    assert_eq!(plan("profile:get-tags", v(r#"["m", "c", "sp", []]"#)).err(), Some(PlanError::MissingArgument(4)));
}

#[test]
fn space_calls_read_the_space_id() {
    match plan("profile:space:edit-member", v(r#"["m", "c", {"space_id": "s1", "role": "admin"}]"#)).unwrap() {
        Call::ProfileSpaceEditMember { member, space_id } => {
            assert_eq!(space_id, s("s1"));
            assert_eq!(from_json(&member), v(r#"{"space_id": "s1", "role": "admin"}"#));
        }
        other => panic!("unexpected {:?}", other),
    }
    assert_eq!(plan("profile:space:send-invite", v(r#"["m", "c", {"to": "x"}]"#)).err(), Some(PlanError::BadArgument(2)));
    assert_eq!(plan("profile:space:edit-invite", v(r#"["m", "c"]"#)).err(), Some(PlanError::MissingArgument(2)));
}

#[test]
fn optional_and_passed_on_arguments() {
    match plan("profile:space:accept-invite", v(r#"["m", "c", {"id": 1}]"#)).unwrap() {
        Call::ProfileSpaceAcceptInvite { invite, passphrase } => {
            assert_eq!(from_json(&invite), v(r#"{"id": 1}"#));
            assert_eq!(passphrase, None);
        }
        other => panic!("unexpected {:?}", other),
    }
    match plan("profile:space:accept-invite", v(r#"["m", "c", {}, "pass"]"#)).unwrap() {
        Call::ProfileSpaceAcceptInvite { passphrase, .. } => assert_eq!(passphrase, Some(s("pass"))),
        other => panic!("unexpected {:?}", other),
    }
    assert_eq!(plan("profile:sync:model", v(r#"["m", "c"]"#)).err(), Some(PlanError::BadSyncAction));
    assert_eq!(plan("profile:sync:model", v(r#"["m1", "profile:sync:model", true]"#)).err(), Some(PlanError::BadSyncAction));
    assert_eq!(plan("profile:sync:model", v(r#"["m", "c", "nope", "note", {}]"#)).err(), Some(PlanError::BadSyncAction));
    assert_eq!(plan("profile:sync:model", v(r#"["m", "c", "edit"]"#)).err(), Some(PlanError::MissingArgument(3)));
    match plan("profile:sync:model", v(r#"["m", "c", "move-space", 1, 2]"#)).unwrap() {
        Call::ProfileSyncModel { action, .. } => assert_eq!(action, SyncAction::MoveSpace),
        other => panic!("unexpected {:?}", other),
    }
    match plan("profile:sync:model", v(r#"["m", "c", "add", "note", {"id": "n"}]"#)).unwrap() {
        Call::ProfileSyncModel { action, ty, data } => {
            assert_eq!(action, SyncAction::Add);
            assert_eq!(from_json(&ty), v(r#""note""#));
            assert_eq!(from_json(&data), v(r#"{"id": "n"}"#));
        }
        other => panic!("unexpected {:?}", other),
    }
}

#[test]
fn integers_are_read_from_their_text() {
    assert_eq!(int_of_json_text("0"), Some(0));
    assert_eq!(int_of_json_text("-0"), Some(0));
    assert_eq!(int_of_json_text("123"), Some(123));
    assert_eq!(int_of_json_text("2147483647"), Some(i32::MAX));
    assert_eq!(int_of_json_text("-2147483648"), Some(i32::MIN));
    assert_eq!(int_of_json_text("2147483648"), None);
    assert_eq!(int_of_json_text("-2147483649"), None);
    assert_eq!(int_of_json_text("99999999999999999999"), None);
    assert_eq!(int_of_json_text("1.5"), None);
    assert_eq!(int_of_json_text("-"), None);
    assert_eq!(int_of_json_text(""), None);
    assert_eq!(int_of_json_text("1e3"), None);
}

#[test]
fn answers_follow_the_outcome() {
    let ping = Call::Ping;
    assert_eq!(from_json(&answer(&ping, Outcome::Done).unwrap()), v(r#""pong""#));
    let join = Call::UserJoin { username: s("u"), password: s("p") };
    assert_eq!(from_json(&answer(&join, Outcome::Done).unwrap()), v(r#"{}"#));
    let file = Call::ProfileGetFile { note_id: s("n") };
    assert_eq!(from_json(&answer(&file, Outcome::Done).unwrap()), Value::Null);
    assert_eq!(from_json(&answer(&Call::AppConnected, Outcome::Flag(true)).unwrap()), v(r#"true"#));
    let login = Call::UserLogin { username: s("u"), password: s("p") };
    assert_eq!(from_json(&answer(&login, Outcome::Text(s("uid-1"))).unwrap()), v(r#""uid-1""#));
    assert_eq!(
        from_json(&answer(&Call::ProfileLoad, Outcome::Value(to_json(v(r#"{"spaces": []}"#)))).unwrap()),
        v(r#"{"spaces": []}"#)
    );
}

#[test]
fn missing_space_and_search_are_errors() {
    let leave = Call::ProfileSpaceLeave { space_id: s("s7") };
    assert_eq!(answer(&leave, Outcome::NoSpace).err(), Some(DispatchError::MissingData(s("couldn't find space s7"))));
    let find = Call::ProfileFindNotes { query: Json::Null };
    assert_eq!(
        answer(&find, Outcome::NoSearch).err(),
        Some(DispatchError::MissingField(s("turtl is missing `search` object")))
    );
}

#[test]
fn events_read_their_data() {
    assert!(matches!(plan_event(&EventKind::SyncConnected, &Json::Bool(true)), Ok(EventCall::SetConnected(true))));
    assert_eq!(plan_event(&EventKind::SyncConnected, &Json::Null).err(), Some(PlanError::BadEventData));
    assert!(matches!(plan_event(&EventKind::SyncIncoming, &Json::Null), Ok(EventCall::ProcessIncoming)));
    match plan_event(&EventKind::UserEdit, &to_json(v(r#"{"name": "x"}"#))).unwrap() {
        EventCall::MergeUser(d) => assert_eq!(from_json(&d), v(r#"{"name": "x"}"#)),
        other => panic!("unexpected {:?}", other),
    }
    for (data, skip) in [(v(r#"["s1"]"#), false), (v(r#"["s1", true]"#), true), (v(r#"["s1", "yes"]"#), false)] {
        match plan_event(&EventKind::SpaceDelete, &to_json(data)).unwrap() {
            EventCall::DeleteSpace { space_id, skip_remote_sync } => {
                assert_eq!(space_id, s("s1"));
                assert_eq!(skip_remote_sync, skip);
            }
            other => panic!("unexpected {:?}", other),
        }
    }
    assert_eq!(plan_event(&EventKind::SpaceDelete, &to_json(v(r#"[]"#))).err(), Some(PlanError::MissingArgument(0)));
    match plan_event(&EventKind::Unknown(s("zzz")), &Json::Null).unwrap() {
        EventCall::Ignore(n) => assert_eq!(n, s("zzz")),
        other => panic!("unexpected {:?}", other),
    }
}

#[test]
fn json_values_copy_and_look_up() {
    let j = to_json(v(r#"{"a": [1, "two", null], "b": {"c": false}}"#));
    assert_eq!(from_json(&j.duplicate()), from_json(&j));
    let a = j.member("a").unwrap();
    assert_eq!(from_json(a.element(1).unwrap()), v(r#""two""#));
    assert!(a.element(3).is_none());
    assert_eq!(a.element(1).unwrap().text(), Some(s("two")));
    assert_eq!(a.element(0).unwrap().text(), None);
    assert!(j.member("z").is_none());
    assert!(j.element(0).is_none());
}

#[test]
fn every_command_name_reads_back() {
    let all = [
        ("user:login", Command::UserLogin),
        ("user:join", Command::UserJoin),
        ("user:can-migrate", Command::UserCanMigrate),
        ("user:join-migrate", Command::UserJoinMigrate),
        ("user:logout", Command::UserLogout),
        ("user:change-password", Command::UserChangePassword),
        ("user:delete-account", Command::UserDeleteAccount),
        ("user:find-by-email", Command::UserFindByEmail),
        ("app:connected", Command::AppConnected),
        ("app:wipe-user-data", Command::AppWipeUserData),
        ("app:wipe-app-data", Command::AppWipeAppData),
        ("sync:start", Command::SyncStart),
        ("sync:pause", Command::SyncPause),
        ("sync:resume", Command::SyncResume),
        ("sync:status", Command::SyncStatus),
        ("sync:shutdown", Command::SyncShutdown),
        ("sync:get-pending", Command::SyncGetPending),
        ("sync:unfreeze-item", Command::SyncUnfreezeItem),
        ("sync:delete-item", Command::SyncDeleteItem),
        ("app:api:set-endpoint", Command::AppApiSetEndpoint),
        ("app:shutdown", Command::AppShutdown),
        ("profile:load", Command::ProfileLoad),
        ("profile:sync:model", Command::ProfileSyncModel),
        ("profile:space:set-owner", Command::ProfileSpaceSetOwner),
        ("profile:space:edit-member", Command::ProfileSpaceEditMember),
        ("profile:space:delete-member", Command::ProfileSpaceDeleteMember),
        ("profile:space:leave", Command::ProfileSpaceLeave),
        ("profile:space:send-invite", Command::ProfileSpaceSendInvite),
        ("profile:space:accept-invite", Command::ProfileSpaceAcceptInvite),
        ("profile:space:edit-invite", Command::ProfileSpaceEditInvite),
        ("profile:space:delete-invite", Command::ProfileSpaceDeleteInvite),
        ("profile:delete-invite", Command::ProfileDeleteInvite),
        ("profile:get-notes", Command::ProfileGetNotes),
        ("profile:find-notes", Command::ProfileFindNotes),
        ("profile:get-file", Command::ProfileGetFile),
        ("profile:get-tags", Command::ProfileGetTags),
        ("profile:export", Command::ProfileExport),
        ("profile:import", Command::ProfileImport),
        ("feedback:send", Command::FeedbackSend),
        ("clip", Command::Clip),
        ("ping", Command::Ping),
    ];
    for (name, cmd) in all.iter() {
        assert_eq!(Command::from_name(name).unwrap(), *cmd);
    }
    for (i, (a, _)) in all.iter().enumerate() {
        for (b, _) in all.iter().skip(i + 1) {
            assert_ne!(a, b);
        }
    }
}
