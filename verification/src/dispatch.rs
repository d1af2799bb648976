//! Routing of the messages that the user interface sends to the core, and
//! the decisions of the handlers they reach.
//!
//! A message is either a request, the JSON array
//! `["<message id>", "<command>", arg1, arg2, ...]`, whose answer goes back
//! under the message id, or an event, the text `::ev` followed by a JSON
//! object with the event's name `e` and its data `d`. The text is read as
//! JSON outside the library; everything after that is decided here.

use vstd::prelude::*;
use vstd::string::*;
use vstd::utf8::*;

use crate::seqs::lemma_first_where_push;
use crate::keychain::{law_sync_action_name_round_trip, sync_action_name, sync_action_of_name, SyncAction};
use crate::json::{
    element_of, json_view, lemma_items_view, member_of, opt_text_view, same_text, text_of, Json,
    JsonView,
};

verus! {

// ---------------------------------------------------------------------------
// Names
// ---------------------------------------------------------------------------

/// A request that the interface can make of the core, by its name.
#[derive(Clone, Debug, PartialEq, Eq, Copy)]
pub enum Command {
    /// `user:login`
    UserLogin,
    /// `user:join`
    UserJoin,
    /// `user:can-migrate`
    UserCanMigrate,
    /// `user:join-migrate`
    UserJoinMigrate,
    /// `user:logout`
    UserLogout,
    /// `user:change-password`
    UserChangePassword,
    /// `user:delete-account`
    UserDeleteAccount,
    /// `user:find-by-email`
    UserFindByEmail,
    /// `app:connected`
    AppConnected,
    /// `app:wipe-user-data`
    AppWipeUserData,
    /// `app:wipe-app-data`
    AppWipeAppData,
    /// `sync:start`
    SyncStart,
    /// `sync:pause`
    SyncPause,
    /// `sync:resume`
    SyncResume,
    /// `sync:status`
    SyncStatus,
    /// `sync:shutdown`
    SyncShutdown,
    /// `sync:get-pending`
    SyncGetPending,
    /// `sync:unfreeze-item`
    SyncUnfreezeItem,
    /// `sync:delete-item`
    SyncDeleteItem,
    /// `app:api:set-endpoint`
    AppApiSetEndpoint,
    /// `app:shutdown`
    AppShutdown,
    /// `profile:load`
    ProfileLoad,
    /// `profile:sync:model`
    ProfileSyncModel,
    /// `profile:space:set-owner`
    ProfileSpaceSetOwner,
    /// `profile:space:edit-member`
    ProfileSpaceEditMember,
    /// `profile:space:delete-member`
    ProfileSpaceDeleteMember,
    /// `profile:space:leave`
    ProfileSpaceLeave,
    /// `profile:space:send-invite`
    ProfileSpaceSendInvite,
    /// `profile:space:accept-invite`
    ProfileSpaceAcceptInvite,
    /// `profile:space:edit-invite`
    ProfileSpaceEditInvite,
    /// `profile:space:delete-invite`
    ProfileSpaceDeleteInvite,
    /// `profile:delete-invite`
    ProfileDeleteInvite,
    /// `profile:get-notes`
    ProfileGetNotes,
    /// `profile:find-notes`
    ProfileFindNotes,
    /// `profile:get-file`
    ProfileGetFile,
    /// `profile:get-tags`
    ProfileGetTags,
    /// `profile:export`
    ProfileExport,
    /// `profile:import`
    ProfileImport,
    /// `feedback:send`
    FeedbackSend,
    /// `clip`
    Clip,
    /// `ping`
    Ping,
}

/// The name of each request.
pub open spec fn command_name(c: Command) -> Seq<char> {
    match c {
        Command::UserLogin => "user:login"@,
        Command::UserJoin => "user:join"@,
        Command::UserCanMigrate => "user:can-migrate"@,
        Command::UserJoinMigrate => "user:join-migrate"@,
        Command::UserLogout => "user:logout"@,
        Command::UserChangePassword => "user:change-password"@,
        Command::UserDeleteAccount => "user:delete-account"@,
        Command::UserFindByEmail => "user:find-by-email"@,
        Command::AppConnected => "app:connected"@,
        Command::AppWipeUserData => "app:wipe-user-data"@,
        Command::AppWipeAppData => "app:wipe-app-data"@,
        Command::SyncStart => "sync:start"@,
        Command::SyncPause => "sync:pause"@,
        Command::SyncResume => "sync:resume"@,
        Command::SyncStatus => "sync:status"@,
        Command::SyncShutdown => "sync:shutdown"@,
        Command::SyncGetPending => "sync:get-pending"@,
        Command::SyncUnfreezeItem => "sync:unfreeze-item"@,
        Command::SyncDeleteItem => "sync:delete-item"@,
        Command::AppApiSetEndpoint => "app:api:set-endpoint"@,
        Command::AppShutdown => "app:shutdown"@,
        Command::ProfileLoad => "profile:load"@,
        Command::ProfileSyncModel => "profile:sync:model"@,
        Command::ProfileSpaceSetOwner => "profile:space:set-owner"@,
        Command::ProfileSpaceEditMember => "profile:space:edit-member"@,
        Command::ProfileSpaceDeleteMember => "profile:space:delete-member"@,
        Command::ProfileSpaceLeave => "profile:space:leave"@,
        Command::ProfileSpaceSendInvite => "profile:space:send-invite"@,
        Command::ProfileSpaceAcceptInvite => "profile:space:accept-invite"@,
        Command::ProfileSpaceEditInvite => "profile:space:edit-invite"@,
        Command::ProfileSpaceDeleteInvite => "profile:space:delete-invite"@,
        Command::ProfileDeleteInvite => "profile:delete-invite"@,
        Command::ProfileGetNotes => "profile:get-notes"@,
        Command::ProfileFindNotes => "profile:find-notes"@,
        Command::ProfileGetFile => "profile:get-file"@,
        Command::ProfileGetTags => "profile:get-tags"@,
        Command::ProfileExport => "profile:export"@,
        Command::ProfileImport => "profile:import"@,
        Command::FeedbackSend => "feedback:send"@,
        Command::Clip => "clip"@,
        Command::Ping => "ping"@,
    }
}

/// The request that a name stands for, if any.
pub open spec fn command_of_name(s: Seq<char>) -> Option<Command> {
    if s == "user:login"@ {
        Some(Command::UserLogin)
    } else if s == "user:join"@ {
        Some(Command::UserJoin)
    } else if s == "user:can-migrate"@ {
        Some(Command::UserCanMigrate)
    } else if s == "user:join-migrate"@ {
        Some(Command::UserJoinMigrate)
    } else if s == "user:logout"@ {
        Some(Command::UserLogout)
    } else if s == "user:change-password"@ {
        Some(Command::UserChangePassword)
    } else if s == "user:delete-account"@ {
        Some(Command::UserDeleteAccount)
    } else if s == "user:find-by-email"@ {
        Some(Command::UserFindByEmail)
    } else if s == "app:connected"@ {
        Some(Command::AppConnected)
    } else if s == "app:wipe-user-data"@ {
        Some(Command::AppWipeUserData)
    } else if s == "app:wipe-app-data"@ {
        Some(Command::AppWipeAppData)
    } else if s == "sync:start"@ {
        Some(Command::SyncStart)
    } else if s == "sync:pause"@ {
        Some(Command::SyncPause)
    } else if s == "sync:resume"@ {
        Some(Command::SyncResume)
    } else if s == "sync:status"@ {
        Some(Command::SyncStatus)
    } else if s == "sync:shutdown"@ {
        Some(Command::SyncShutdown)
    } else if s == "sync:get-pending"@ {
        Some(Command::SyncGetPending)
    } else if s == "sync:unfreeze-item"@ {
        Some(Command::SyncUnfreezeItem)
    } else if s == "sync:delete-item"@ {
        Some(Command::SyncDeleteItem)
    } else if s == "app:api:set-endpoint"@ {
        Some(Command::AppApiSetEndpoint)
    } else if s == "app:shutdown"@ {
        Some(Command::AppShutdown)
    } else if s == "profile:load"@ {
        Some(Command::ProfileLoad)
    } else if s == "profile:sync:model"@ {
        Some(Command::ProfileSyncModel)
    } else if s == "profile:space:set-owner"@ {
        Some(Command::ProfileSpaceSetOwner)
    } else if s == "profile:space:edit-member"@ {
        Some(Command::ProfileSpaceEditMember)
    } else if s == "profile:space:delete-member"@ {
        Some(Command::ProfileSpaceDeleteMember)
    } else if s == "profile:space:leave"@ {
        Some(Command::ProfileSpaceLeave)
    } else if s == "profile:space:send-invite"@ {
        Some(Command::ProfileSpaceSendInvite)
    } else if s == "profile:space:accept-invite"@ {
        Some(Command::ProfileSpaceAcceptInvite)
    } else if s == "profile:space:edit-invite"@ {
        Some(Command::ProfileSpaceEditInvite)
    } else if s == "profile:space:delete-invite"@ {
        Some(Command::ProfileSpaceDeleteInvite)
    } else if s == "profile:delete-invite"@ {
        Some(Command::ProfileDeleteInvite)
    } else if s == "profile:get-notes"@ {
        Some(Command::ProfileGetNotes)
    } else if s == "profile:find-notes"@ {
        Some(Command::ProfileFindNotes)
    } else if s == "profile:get-file"@ {
        Some(Command::ProfileGetFile)
    } else if s == "profile:get-tags"@ {
        Some(Command::ProfileGetTags)
    } else if s == "profile:export"@ {
        Some(Command::ProfileExport)
    } else if s == "profile:import"@ {
        Some(Command::ProfileImport)
    } else if s == "feedback:send"@ {
        Some(Command::FeedbackSend)
    } else if s == "clip"@ {
        Some(Command::Clip)
    } else if s == "ping"@ {
        Some(Command::Ping)
    } else {
        None
    }
}

/// An event that parts of the core raise for the core itself, by its name.
#[derive(Clone, Debug, PartialEq, Eq)]
pub enum EventKind {
    /// `sync:connected`
    SyncConnected,
    /// `sync:incoming`
    SyncIncoming,
    /// `user:edit`
    UserEdit,
    /// `user:change-password:logout`
    ChangePasswordLogout,
    /// `space:delete`
    SpaceDelete,
    /// Any other name; it is ignored.
    Unknown(String),
}

/// The name of each event.
pub open spec fn event_name(c: EventKind) -> Seq<char> {
    match c {
        EventKind::SyncConnected => "sync:connected"@,
        EventKind::SyncIncoming => "sync:incoming"@,
        EventKind::UserEdit => "user:edit"@,
        EventKind::ChangePasswordLogout => "user:change-password:logout"@,
        EventKind::SpaceDelete => "space:delete"@,
        EventKind::Unknown(s) => s@,
    }
}

/// The known event that a name stands for, if any.
pub open spec fn known_event_of_name(s: Seq<char>) -> Option<EventKind> {
    if s == "sync:connected"@ {
        Some(EventKind::SyncConnected)
    } else if s == "sync:incoming"@ {
        Some(EventKind::SyncIncoming)
    } else if s == "user:edit"@ {
        Some(EventKind::UserEdit)
    } else if s == "user:change-password:logout"@ {
        Some(EventKind::ChangePasswordLogout)
    } else if s == "space:delete"@ {
        Some(EventKind::SpaceDelete)
    } else {
        None
    }
}

/// What can go wrong in handling a message.
#[derive(Debug, PartialEq, Eq)]
pub enum DispatchError {
    /// A part of the message is missing; the text says which.
    MissingField(String),
    /// The request names no known command; it holds the name.
    MissingCommand(String),
    /// Something the request names does not exist; the text says what.
    MissingData(String),
    /// The text is not JSON; it holds the reader's complaint.
    Json(String),
    /// An argument of the request or the event cannot be read.
    Plan(PlanError),
}

/// Why the arguments of a request or an event cannot be read.
#[derive(Clone, Copy, Debug, PartialEq, Eq, Structural)]
pub enum PlanError {
    /// Nothing stands at this position.
    MissingArgument(usize),
    /// What stands at this position is not of the kind the call takes.
    BadArgument(usize),
    /// The sync action of `profile:sync:model` is missing or names no action.
    BadSyncAction,
    /// The event's data is not of the kind the event takes.
    BadEventData,
}

impl Command {
    /// The request with this name, or `MissingCommand` with the name.
    pub fn from_name(name: &str) -> (r: Result<Command, DispatchError>)
        ensures
            match command_of_name(name@) {
                Some(c) => r matches Ok(d) && d == c,
                None => r matches Err(DispatchError::MissingCommand(v)) && v@ == name@,
            },
    {
        if same_text(name, "user:login") {
            Ok(Command::UserLogin)
        } else if same_text(name, "user:join") {
            Ok(Command::UserJoin)
        } else if same_text(name, "user:can-migrate") {
            Ok(Command::UserCanMigrate)
        } else if same_text(name, "user:join-migrate") {
            Ok(Command::UserJoinMigrate)
        } else if same_text(name, "user:logout") {
            Ok(Command::UserLogout)
        } else if same_text(name, "user:change-password") {
            Ok(Command::UserChangePassword)
        } else if same_text(name, "user:delete-account") {
            Ok(Command::UserDeleteAccount)
        } else if same_text(name, "user:find-by-email") {
            Ok(Command::UserFindByEmail)
        } else if same_text(name, "app:connected") {
            Ok(Command::AppConnected)
        } else if same_text(name, "app:wipe-user-data") {
            Ok(Command::AppWipeUserData)
        } else if same_text(name, "app:wipe-app-data") {
            Ok(Command::AppWipeAppData)
        } else if same_text(name, "sync:start") {
            Ok(Command::SyncStart)
        } else if same_text(name, "sync:pause") {
            Ok(Command::SyncPause)
        } else if same_text(name, "sync:resume") {
            Ok(Command::SyncResume)
        } else if same_text(name, "sync:status") {
            Ok(Command::SyncStatus)
        } else if same_text(name, "sync:shutdown") {
            Ok(Command::SyncShutdown)
        } else if same_text(name, "sync:get-pending") {
            Ok(Command::SyncGetPending)
        } else if same_text(name, "sync:unfreeze-item") {
            Ok(Command::SyncUnfreezeItem)
        } else if same_text(name, "sync:delete-item") {
            Ok(Command::SyncDeleteItem)
        } else if same_text(name, "app:api:set-endpoint") {
            Ok(Command::AppApiSetEndpoint)
        } else if same_text(name, "app:shutdown") {
            Ok(Command::AppShutdown)
        } else if same_text(name, "profile:load") {
            Ok(Command::ProfileLoad)
        } else if same_text(name, "profile:sync:model") {
            Ok(Command::ProfileSyncModel)
        } else if same_text(name, "profile:space:set-owner") {
            Ok(Command::ProfileSpaceSetOwner)
        } else if same_text(name, "profile:space:edit-member") {
            Ok(Command::ProfileSpaceEditMember)
        } else if same_text(name, "profile:space:delete-member") {
            Ok(Command::ProfileSpaceDeleteMember)
        } else if same_text(name, "profile:space:leave") {
            Ok(Command::ProfileSpaceLeave)
        } else if same_text(name, "profile:space:send-invite") {
            Ok(Command::ProfileSpaceSendInvite)
        } else if same_text(name, "profile:space:accept-invite") {
            Ok(Command::ProfileSpaceAcceptInvite)
        } else if same_text(name, "profile:space:edit-invite") {
            Ok(Command::ProfileSpaceEditInvite)
        } else if same_text(name, "profile:space:delete-invite") {
            Ok(Command::ProfileSpaceDeleteInvite)
        } else if same_text(name, "profile:delete-invite") {
            Ok(Command::ProfileDeleteInvite)
        } else if same_text(name, "profile:get-notes") {
            Ok(Command::ProfileGetNotes)
        } else if same_text(name, "profile:find-notes") {
            Ok(Command::ProfileFindNotes)
        } else if same_text(name, "profile:get-file") {
            Ok(Command::ProfileGetFile)
        } else if same_text(name, "profile:get-tags") {
            Ok(Command::ProfileGetTags)
        } else if same_text(name, "profile:export") {
            Ok(Command::ProfileExport)
        } else if same_text(name, "profile:import") {
            Ok(Command::ProfileImport)
        } else if same_text(name, "feedback:send") {
            Ok(Command::FeedbackSend)
        } else if same_text(name, "clip") {
            Ok(Command::Clip)
        } else if same_text(name, "ping") {
            Ok(Command::Ping)
        } else {
            Err(DispatchError::MissingCommand(name.to_owned()))
        }
    }
}

impl EventKind {
    /// The event with this name; any other name is kept as `Unknown`.
    pub fn from_name(name: String) -> (r: EventKind)
        ensures
            match known_event_of_name(name@) {
                Some(k) => r == k,
                None => r matches EventKind::Unknown(v) && v@ == name@,
            },
    {
        let text = name.as_str();
        if same_text(text, "sync:connected") {
            EventKind::SyncConnected
        } else if same_text(text, "sync:incoming") {
            EventKind::SyncIncoming
        } else if same_text(text, "user:edit") {
            EventKind::UserEdit
        } else if same_text(text, "user:change-password:logout") {
            EventKind::ChangePasswordLogout
        } else if same_text(text, "space:delete") {
            EventKind::SpaceDelete
        } else {
            EventKind::Unknown(name)
        }
    }
}

/// Every request's name reads back as that request.
pub proof fn law_command_name_round_trip(c: Command, name: Seq<char>)
    ensures
        command_of_name(command_name(c)) == Some(c),
        command_of_name(name) matches Some(d) ==> command_name(d) == name,
{
    reveal_strlit("user:login");
    reveal_strlit("user:join");
    reveal_strlit("user:can-migrate");
    reveal_strlit("user:join-migrate");
    reveal_strlit("user:logout");
    reveal_strlit("user:change-password");
    reveal_strlit("user:delete-account");
    reveal_strlit("user:find-by-email");
    reveal_strlit("app:connected");
    reveal_strlit("app:wipe-user-data");
    reveal_strlit("app:wipe-app-data");
    reveal_strlit("sync:start");
    reveal_strlit("sync:pause");
    reveal_strlit("sync:resume");
    reveal_strlit("sync:status");
    reveal_strlit("sync:shutdown");
    reveal_strlit("sync:get-pending");
    reveal_strlit("sync:unfreeze-item");
    reveal_strlit("sync:delete-item");
    reveal_strlit("app:api:set-endpoint");
    reveal_strlit("app:shutdown");
    reveal_strlit("profile:load");
    reveal_strlit("profile:sync:model");
    reveal_strlit("profile:space:set-owner");
    reveal_strlit("profile:space:edit-member");
    reveal_strlit("profile:space:delete-member");
    reveal_strlit("profile:space:leave");
    reveal_strlit("profile:space:send-invite");
    reveal_strlit("profile:space:accept-invite");
    reveal_strlit("profile:space:edit-invite");
    reveal_strlit("profile:space:delete-invite");
    reveal_strlit("profile:delete-invite");
    reveal_strlit("profile:get-notes");
    reveal_strlit("profile:find-notes");
    reveal_strlit("profile:get-file");
    reveal_strlit("profile:get-tags");
    reveal_strlit("profile:export");
    reveal_strlit("profile:import");
    reveal_strlit("feedback:send");
    reveal_strlit("clip");
    reveal_strlit("ping");
    // Names differ in length, or, for names of one length, at the position given.
    assert("user:login"@.len() == 10 && "user:login"@[0] == 'u');
    assert("user:join"@.len() == 9);
    assert("user:can-migrate"@.len() == 16 && "user:can-migrate"@[0] == 'u');
    assert("user:join-migrate"@.len() == 17 && "user:join-migrate"@[0] == 'u');
    assert("user:logout"@.len() == 11 && "user:logout"@[0] == 'u');
    assert("user:change-password"@.len() == 20 && "user:change-password"@[0] == 'u');
    assert("user:delete-account"@.len() == 19 && "user:delete-account"@[0] == 'u');
    assert("user:find-by-email"@.len() == 18 && "user:find-by-email"@[0] == 'u');
    assert("app:connected"@.len() == 13 && "app:connected"@[0] == 'a');
    assert("app:wipe-user-data"@.len() == 18 && "app:wipe-user-data"@[0] == 'a');
    assert("app:wipe-app-data"@.len() == 17 && "app:wipe-app-data"@[0] == 'a');
    assert("sync:start"@.len() == 10 && "sync:start"@[0] == 's' && "sync:start"@[5] == 's');
    assert("sync:pause"@.len() == 10 && "sync:pause"@[0] == 's' && "sync:pause"@[5] == 'p');
    assert("sync:resume"@.len() == 11 && "sync:resume"@[0] == 's' && "sync:resume"@[5] == 'r');
    assert("sync:status"@.len() == 11 && "sync:status"@[0] == 's' && "sync:status"@[5] == 's');
    assert("sync:shutdown"@.len() == 13 && "sync:shutdown"@[0] == 's');
    assert("sync:get-pending"@.len() == 16 && "sync:get-pending"@[0] == 's' && "sync:get-pending"@[5] == 'g');
    assert("sync:unfreeze-item"@.len() == 18 && "sync:unfreeze-item"@[0] == 's');
    assert("sync:delete-item"@.len() == 16 && "sync:delete-item"@[0] == 's' && "sync:delete-item"@[5] == 'd');
    assert("app:api:set-endpoint"@.len() == 20 && "app:api:set-endpoint"@[0] == 'a');
    assert("app:shutdown"@.len() == 12 && "app:shutdown"@[0] == 'a');
    assert("profile:load"@.len() == 12 && "profile:load"@[0] == 'p');
    assert("profile:sync:model"@.len() == 18 && "profile:sync:model"@[0] == 'p' && "profile:sync:model"@[8] == 's');
    assert("profile:space:set-owner"@.len() == 23);
    assert("profile:space:edit-member"@.len() == 25 && "profile:space:edit-member"@[14] == 'e' && "profile:space:edit-member"@[19] == 'm');
    assert("profile:space:delete-member"@.len() == 27 && "profile:space:delete-member"@[14] == 'd' && "profile:space:delete-member"@[21] == 'm');
    assert("profile:space:leave"@.len() == 19 && "profile:space:leave"@[0] == 'p');
    assert("profile:space:send-invite"@.len() == 25 && "profile:space:send-invite"@[14] == 's');
    assert("profile:space:accept-invite"@.len() == 27 && "profile:space:accept-invite"@[14] == 'a');
    assert("profile:space:edit-invite"@.len() == 25 && "profile:space:edit-invite"@[14] == 'e' && "profile:space:edit-invite"@[19] == 'i');
    assert("profile:space:delete-invite"@.len() == 27 && "profile:space:delete-invite"@[14] == 'd' && "profile:space:delete-invite"@[21] == 'i');
    assert("profile:delete-invite"@.len() == 21);
    assert("profile:get-notes"@.len() == 17 && "profile:get-notes"@[0] == 'p');
    assert("profile:find-notes"@.len() == 18 && "profile:find-notes"@[0] == 'p' && "profile:find-notes"@[8] == 'f');
    assert("profile:get-file"@.len() == 16 && "profile:get-file"@[0] == 'p' && "profile:get-file"@[12] == 'f');
    assert("profile:get-tags"@.len() == 16 && "profile:get-tags"@[0] == 'p' && "profile:get-tags"@[12] == 't');
    assert("profile:export"@.len() == 14 && "profile:export"@[8] == 'e');
    assert("profile:import"@.len() == 14 && "profile:import"@[8] == 'i');
    assert("feedback:send"@.len() == 13 && "feedback:send"@[0] == 'f');
    assert("clip"@.len() == 4 && "clip"@[0] == 'c');
    assert("ping"@.len() == 4 && "ping"@[0] == 'p');
}

/// Every known event's name reads back as that event, and an unknown name
/// stays as it was.
pub proof fn law_event_name_round_trip(k: EventKind, name: Seq<char>)
    ensures
        !(k is Unknown) ==> known_event_of_name(event_name(k)) == Some(k),
        known_event_of_name(name) matches Some(d) ==> event_name(d) == name && !(d is Unknown),
{
    reveal_strlit("sync:connected");
    reveal_strlit("sync:incoming");
    reveal_strlit("user:edit");
    reveal_strlit("user:change-password:logout");
    reveal_strlit("space:delete");
    // The names differ in length.
    assert("sync:connected"@.len() == 14);
    assert("sync:incoming"@.len() == 13);
    assert("user:edit"@.len() == 9);
    assert("user:change-password:logout"@.len() == 27);
    assert("space:delete"@.len() == 12);
}

// ---------------------------------------------------------------------------
// Messages
// ---------------------------------------------------------------------------

/// The four bytes `::ev` that open an event message.
pub open spec fn event_marker() -> Seq<u8> {
    seq![58u8, 58u8, 101u8, 118u8]
}

/// Whether a message, as bytes, opens with the event marker.
pub open spec fn is_event_message(msg: Seq<u8>) -> bool {
    msg.subrange(0, 4) == event_marker()
}

/// Whether the first four bytes of the message can be cut off as text:
/// there are at least four, and the fourth ends a character.
pub open spec fn can_cut_marker(msg: &str) -> bool {
    msg.spec_bytes().len() >= 4 && is_char_boundary(msg.spec_bytes(), 4)
}

/// The text of an event message after its marker.
pub open spec fn text_after_marker(msg: &str) -> Seq<char> {
    decode_utf8(msg.spec_bytes().subrange(4, msg.spec_bytes().len() as int))
}

/// Whether the message opens with the event marker.
pub fn is_event(msg: &str) -> (b: bool)
    requires
        can_cut_marker(msg),
    ensures
        b == is_event_message(msg.spec_bytes()),
{
    let (head, _rest) = msg.split_at(4);
    let h = head.as_bytes();
    let b = h[0] == 58u8 && h[1] == 58u8 && h[2] == 101u8 && h[3] == 118u8;
    assert(b == (h@ =~= event_marker()));
    b
}

/// A message, with the text that is to be read as JSON.
#[derive(Debug)]
pub enum Frame {
    /// An event; the text follows the marker.
    Event(String),
    /// A request; the text is the whole message.
    Request(String),
}

/// Tells an event from a request and gives the text that holds its JSON.
pub fn frame(msg: &str) -> (f: Frame)
    requires
        can_cut_marker(msg),
    ensures
        match f {
            Frame::Event(t) => is_event_message(msg.spec_bytes()) && t@ == text_after_marker(msg),
            Frame::Request(t) => !is_event_message(msg.spec_bytes()) && t@ == msg@,
        },
{
    if is_event(msg) {
        let (_head, rest) = msg.split_at(4);
        proof {
            encode_utf8_decode_utf8(rest@);
        }
        Frame::Event(rest.to_owned())
    } else {
        Frame::Request(msg.to_owned())
    }
}

/// Where a message goes: an event for the core, or a request whose answer
/// goes back under the message id `mid`. A request for an unknown command
/// carries the error that is answered.
#[derive(Debug)]
pub enum Route {
    Event { kind: EventKind, data: Json },
    Request { mid: String, command: Result<Command, DispatchError>, data: Json },
}

/// How a request is routed: its id is the string at position 0, its command
/// is named by the string at position 1, and the whole message is its data.
pub open spec fn request_routed(m: JsonView, r: Result<Route, DispatchError>) -> bool {
    match text_of(element_of(m, 0)) {
        None => r matches Err(DispatchError::MissingField(x)) && x@ == "missing mid (0)"@,
        Some(mid) => match text_of(element_of(m, 1)) {
            None => r matches Err(DispatchError::MissingField(x)) && x@ == "missing cmd (1)"@,
            Some(c) => r matches Ok(Route::Request { mid: rm, command, data }) && rm@ == mid
                && data@ == m && match command_of_name(c) {
                Some(k) => command matches Ok(x) && x == k,
                None => command matches Err(DispatchError::MissingCommand(v)) && v@ == c,
            },
        },
    }
}

/// How an event is routed: its name is the string member `e`, its data the
/// member `d`.
pub open spec fn event_routed(ev: JsonView, r: Result<Route, DispatchError>) -> bool {
    match text_of(member_of(ev, "e"@)) {
        None => r matches Err(DispatchError::MissingField(x)) && x@ == "missing event name (e)"@,
        Some(n) => match member_of(ev, "d"@) {
            None => r matches Err(DispatchError::MissingField(x)) && x@ == "missing event data (d)"@,
            Some(d) => r matches Ok(Route::Event { kind, data }) && data@ == d && match known_event_of_name(n) {
                Some(k) => kind == k,
                None => kind matches EventKind::Unknown(v) && v@ == n,
            },
        },
    }
}

/// The text of the string at position `pos` of an array.
fn element_text(m: &Json, pos: usize) -> (r: Option<String>)
    ensures
        opt_text_view(r) == text_of(element_of(m@, pos as int)),
{
    match m.element(pos) {
        Some(j) => j.text(),
        None => None,
    }
}

/// Routes a request, read as JSON.
pub fn route_request(msg: Json) -> (r: Result<Route, DispatchError>)
    ensures
        request_routed(msg@, r),
{
    let mid = match element_text(&msg, 0) {
        Some(m) => m,
        None => {
            return Err(DispatchError::MissingField(String::from_str("missing mid (0)")));
        },
    };
    let cmd = match element_text(&msg, 1) {
        Some(c) => c,
        None => {
            return Err(DispatchError::MissingField(String::from_str("missing cmd (1)")));
        },
    };
    let command = Command::from_name(cmd.as_str());
    Ok(Route::Request { mid, command, data: msg })
}

/// Routes an event, read as JSON.
pub fn route_event(ev: &Json) -> (r: Result<Route, DispatchError>)
    ensures
        event_routed(ev@, r),
{
    let name = match ev.member("e") {
        Some(j) => j.text(),
        None => None,
    };
    let name = match name {
        Some(n) => n,
        None => {
            return Err(DispatchError::MissingField(String::from_str("missing event name (e)")));
        },
    };
    let data = match ev.member("d") {
        Some(d) => d.duplicate(),
        None => {
            return Err(DispatchError::MissingField(String::from_str("missing event data (d)")));
        },
    };
    Ok(Route::Event { kind: EventKind::from_name(name), data })
}

/// Finds where a message goes, given its frame and its text as read as
/// JSON (or the reader's complaint).
pub fn process(frame: &Frame, parsed: Result<Json, String>) -> (r: Result<Route, DispatchError>)
    ensures
        match parsed {
            Err(e) => r matches Err(DispatchError::Json(x)) && x@ == e@,
            Ok(j) => match frame {
                Frame::Event(_) => event_routed(j@, r),
                Frame::Request(_) => request_routed(j@, r),
            },
        },
{
    let json = match parsed {
        Ok(j) => j,
        Err(e) => {
            return Err(DispatchError::Json(e));
        },
    };
    match frame {
        Frame::Event(_) => route_event(&json),
        Frame::Request(_) => route_request(json),
    }
}

// ---------------------------------------------------------------------------
// Arguments
// ---------------------------------------------------------------------------

/// A text argument.
pub open spec fn text_arg(m: JsonView, pos: usize) -> Result<Seq<char>, PlanError> {
    match element_of(m, pos as int) {
        None => Err(PlanError::MissingArgument(pos)),
        Some(JsonView::Str(s)) => Ok(s),
        Some(_) => Err(PlanError::BadArgument(pos)),
    }
}

/// An argument of any kind, passed on as it is.
pub open spec fn json_arg(m: JsonView, pos: usize) -> Result<JsonView, PlanError> {
    match element_of(m, pos as int) {
        None => Err(PlanError::MissingArgument(pos)),
        Some(j) => Ok(j),
    }
}

/// The sync action of `profile:sync:model`: the name of an action; anything
/// else, or nothing, is a bad sync action.
pub open spec fn action_arg(m: JsonView, pos: usize) -> Result<SyncAction, PlanError> {
    match text_of(element_of(m, pos as int)) {
        Some(name) => match sync_action_of_name(name) {
            Some(a) => Ok(a),
            None => Err(PlanError::BadSyncAction),
        },
        None => Err(PlanError::BadSyncAction),
    }
}

/// An optional text argument: absent, or not a text, reads as none.
pub open spec fn opt_text_arg(m: JsonView, pos: usize) -> Option<Seq<char>> {
    text_of(element_of(m, pos as int))
}

/// Whether every element of an array is a text.
pub open spec fn all_texts(items: Seq<JsonView>) -> bool {
    forall|i: int| 0 <= i < items.len() ==> items[i] is Str
}

/// A list-of-texts argument.
pub open spec fn texts_arg(m: JsonView, pos: usize) -> Result<Seq<Seq<char>>, PlanError> {
    match element_of(m, pos as int) {
        None => Err(PlanError::MissingArgument(pos)),
        Some(JsonView::Array(items)) => if all_texts(items) {
            Ok(items.map_values(|j: JsonView| j->Str_0))
        } else {
            Err(PlanError::BadArgument(pos))
        },
        Some(_) => Err(PlanError::BadArgument(pos)),
    }
}

/// An integer argument that fits in 32 bits.
pub open spec fn int_arg(m: JsonView, pos: usize) -> Result<int, PlanError> {
    match element_of(m, pos as int) {
        None => Err(PlanError::MissingArgument(pos)),
        Some(JsonView::Number(t)) => match int_of_text(t) {
            Some(v) => if i32::MIN <= v <= i32::MAX {
                Ok(v)
            } else {
                Err(PlanError::BadArgument(pos))
            },
            None => Err(PlanError::BadArgument(pos)),
        },
        Some(_) => Err(PlanError::BadArgument(pos)),
    }
}

/// An object argument that names its space in the text member `space_id`;
/// it is passed on with that id.
pub open spec fn space_arg(m: JsonView, pos: usize) -> Result<(JsonView, Seq<char>), PlanError> {
    match element_of(m, pos as int) {
        None => Err(PlanError::MissingArgument(pos)),
        Some(o) => match text_of(member_of(o, "space_id"@)) {
            Some(id) => Ok((o, id)),
            None => Err(PlanError::BadArgument(pos)),
        },
    }
}

fn read_text(m: &Json, pos: usize) -> (r: Result<String, PlanError>)
    ensures
        match text_arg(m@, pos) {
            Ok(v) => r matches Ok(s) && s@ == v,
            Err(e) => r matches Err(x) && x == e,
        },
{
    match m.element(pos) {
        None => Err(PlanError::MissingArgument(pos)),
        Some(j) => match j.text() {
            Some(s) => Ok(s),
            None => Err(PlanError::BadArgument(pos)),
        },
    }
}

fn read_json(m: &Json, pos: usize) -> (r: Result<Json, PlanError>)
    ensures
        match json_arg(m@, pos) {
            Ok(v) => r matches Ok(j) && j@ == v,
            Err(e) => r matches Err(x) && x == e,
        },
{
    match m.element(pos) {
        None => Err(PlanError::MissingArgument(pos)),
        Some(j) => Ok(j.duplicate()),
    }
}

fn read_action(m: &Json, pos: usize) -> (r: Result<SyncAction, PlanError>)
    ensures
        match action_arg(m@, pos) {
            Ok(v) => r matches Ok(a) && a == v,
            Err(e) => r matches Err(x) && x == e,
        },
{
    match element_text(m, pos) {
        Some(name) => match SyncAction::from_name(name.as_str()) {
            Some(a) => Ok(a),
            None => Err(PlanError::BadSyncAction),
        },
        None => Err(PlanError::BadSyncAction),
    }
}

fn read_opt_text(m: &Json, pos: usize) -> (r: Option<String>)
    ensures
        opt_text_view(r) == opt_text_arg(m@, pos),
{
    element_text(m, pos)
}

fn read_texts(m: &Json, pos: usize) -> (r: Result<Vec<String>, PlanError>)
    ensures
        match texts_arg(m@, pos) {
            Ok(v) => r matches Ok(s) && s@.map_values(|s: String| s@) == v,
            Err(e) => r matches Err(x) && x == e,
        },
{
    match m.element(pos) {
        None => Err(PlanError::MissingArgument(pos)),
        Some(Json::Array(v)) => {
            let ghost items = crate::json::items_view(v@);
            proof {
                lemma_items_view(v@);
            }
            let mut out: Vec<String> = Vec::new();
            let n = v.len();
            for i in 0..n
                invariant
                    n == v@.len(),
                    items == crate::json::items_view(v@),
                    element_of(m@, pos as int) == Some(JsonView::Array(items)),
                    items.len() == n,
                    forall|k: int| 0 <= k < n ==> #[trigger] items[k] == json_view(v@[k]),
                    all_texts(items.take(i as int)),
                    out@.map_values(|s: String| s@) == items.take(i as int).map_values(
                        |j: JsonView| j->Str_0,
                    ),
            {
                assert(items[i as int] == json_view(v@[i as int]));
                match v[i].text() {
                    Some(t) => {
                        assert(items[i as int] == JsonView::Str(t@));
                        let ghost before = out@;
                        out.push(t);
                        assert(out@.map_values(|s: String| s@) =~= before.map_values(|s: String| s@).push(
                            t@,
                        ));
                        assert(items.take(i + 1).map_values(|j: JsonView| j->Str_0) =~= items.take(
                            i as int,
                        ).map_values(|j: JsonView| j->Str_0).push(t@));
                        assert(all_texts(items.take(i + 1))) by {
                            assert forall|k: int| 0 <= k < i + 1 implies #[trigger] items.take(
                                i + 1,
                            )[k] is Str by {
                                if k < i {
                                    assert(items.take(i + 1)[k] == items.take(i as int)[k]);
                                }
                            }
                        }
                    },
                    None => {
                        assert(!(items[i as int] is Str));
                        assert(!all_texts(items));
                        return Err(PlanError::BadArgument(pos));
                    },
                }
            }
            assert(items.take(n as int) =~= items);
            Ok(out)
        },
        Some(_) => Err(PlanError::BadArgument(pos)),
    }
}

fn read_int(m: &Json, pos: usize) -> (r: Result<i32, PlanError>)
    ensures
        match int_arg(m@, pos) {
            Ok(v) => r matches Ok(s) && s as int == v,
            Err(e) => r matches Err(x) && x == e,
        },
{
    match m.element(pos) {
        None => Err(PlanError::MissingArgument(pos)),
        Some(Json::Number(t)) => match int_of_json_text(t.as_str()) {
            Some(v) => Ok(v),
            None => Err(PlanError::BadArgument(pos)),
        },
        Some(_) => Err(PlanError::BadArgument(pos)),
    }
}

fn read_space(m: &Json, pos: usize) -> (r: Result<(Json, String), PlanError>)
    ensures
        match space_arg(m@, pos) {
            Ok(v) => r matches Ok(s) && s.0@ == v.0 && s.1@ == v.1,
            Err(e) => r matches Err(x) && x == e,
        },
{
    match m.element(pos) {
        None => Err(PlanError::MissingArgument(pos)),
        Some(o) => {
            let id = match o.member("space_id") {
                Some(s) => s.text(),
                None => None,
            };
            match id {
                Some(id) => Ok((o.duplicate(), id)),
                None => Err(PlanError::BadArgument(pos)),
            }
        },
    }
}

// ---------------------------------------------------------------------------
// Integers written as text
// ---------------------------------------------------------------------------

pub open spec fn is_digit(c: char) -> bool {
    '0' <= c <= '9'
}

pub open spec fn all_digits(s: Seq<char>) -> bool {
    forall|i: int| 0 <= i < s.len() ==> is_digit(#[trigger] s[i])
}

/// The value of a run of decimal digits.
pub open spec fn digits_value(s: Seq<char>) -> int
    decreases s.len(),
{
    if s.len() == 0 {
        0
    } else {
        digits_value(s.drop_last()) * 10 + (s.last() as int - '0' as int)
    }
}

/// The integer that a JSON integer's text stands for: an optional minus
/// sign and at least one digit.
pub open spec fn int_of_text(s: Seq<char>) -> Option<int> {
    if s.len() > 0 && s[0] == '-' {
        if s.len() > 1 && all_digits(s.drop_first()) {
            Some(-digits_value(s.drop_first()))
        } else {
            None
        }
    } else if s.len() > 0 && all_digits(s) {
        Some(digits_value(s))
    } else {
        None
    }
}

proof fn lemma_digits_grow(s: Seq<char>, k: int)
    requires
        all_digits(s),
        0 <= k <= s.len(),
    ensures
        0 <= digits_value(s.take(k)) <= digits_value(s),
    decreases s.len(),
{
    if k == s.len() {
        assert(s.take(k) =~= s);
        lemma_digits_nonneg(s);
    } else {
        assert(s.drop_last().take(k) =~= s.take(k));
        lemma_digits_grow(s.drop_last(), k);
    }
}

proof fn lemma_digits_nonneg(s: Seq<char>)
    requires
        all_digits(s),
    ensures
        digits_value(s) >= 0,
    decreases s.len(),
{
    if s.len() > 0 {
        lemma_digits_nonneg(s.drop_last());
    }
}

/// The 32-bit integer that a JSON number's text stands for, if it is an
/// integer in range.
pub fn int_of_json_text(t: &str) -> (r: Option<i32>)
    ensures
        match int_of_text(t@) {
            Some(v) => if i32::MIN <= v <= i32::MAX {
                r matches Some(x) && x as int == v
            } else {
                r is None
            },
            None => r is None,
        },
{
    let n = t.unicode_len();
    if n == 0 {
        return None;
    }
    let negative = t.get_char(0) == '-';
    let start: usize = if negative { 1 } else { 0 };
    if start >= n {
        return None;
    }
    let ghost d = t@.subrange(start as int, n as int);
    assert(negative == (t@[0] == '-'));
    assert(negative ==> d =~= t@.drop_first());
    assert(!negative ==> d =~= t@);
    let mut acc: i64 = 0;
    let mut i: usize = start;
    while i < n
        invariant
            start <= i <= n,
            n == t@.len(),
            negative == (t@[0] == '-'),
            start == (if negative { 1usize } else { 0usize }),
            start < n,
            negative ==> d == t@.drop_first(),
            !negative ==> d == t@,
            d == t@.subrange(start as int, n as int),
            all_digits(d.take(i - start)),
            acc as int == digits_value(d.take(i - start)),
            0 <= acc <= 2147483648,
        decreases n - i,
    {
        let c = t.get_char(i);
        if !('0' <= c && c <= '9') {
            assert(d[i - start] == c);
            assert(!is_digit(d[i - start]));
            assert(!all_digits(d));
            return None;
        }
        let next = acc * 10 + (c as u32 - '0' as u32) as i64;
        assert(d.take(i - start + 1).drop_last() =~= d.take(i - start));
        assert(d.take(i - start + 1).last() == c);
        assert(all_digits(d.take(i - start + 1))) by {
            assert forall|k: int| 0 <= k < i - start + 1 implies is_digit(
                #[trigger] d.take(i - start + 1)[k],
            ) by {
                if k < i - start {
                    assert(d.take(i - start + 1)[k] == d.take(i - start)[k]);
                }
            }
        }
        assert(digits_value(d.take(i - start + 1)) == next as int);
        i = i + 1;
        if next > 2147483648 {
            // Later digits only make the value larger.
            proof {
                let rest_ok = all_digits(d);
                if rest_ok {
                    lemma_digits_grow(d, (i - start) as int);
                }
            }
            return None;
        }
        acc = next;
    }
    assert(d.take(n - start) =~= d);
    if negative {
        Some((0 - acc) as i32)
    } else if acc <= 2147483647 {
        Some(acc as i32)
    } else {
        None
    }
}

// ---------------------------------------------------------------------------
// Requests
// ---------------------------------------------------------------------------

/// A call on the application's services that a request asks for, with
/// the arguments read from the request.
#[derive(Debug)]
pub enum Call {
    /// For `user:login`.
    UserLogin { username: String, password: String },
    /// For `user:join`.
    UserJoin { username: String, password: String },
    /// For `user:can-migrate`.
    UserCanMigrate { username: String, password: String },
    /// For `user:join-migrate`.
    UserJoinMigrate { old_username: String, old_password: String, new_username: String, new_password: String },
    /// For `user:logout`.
    UserLogout,
    /// For `user:change-password`.
    UserChangePassword { current_username: String, current_password: String, new_username: String, new_password: String },
    /// For `user:delete-account`.
    UserDeleteAccount,
    /// For `user:find-by-email`.
    UserFindByEmail { email: String },
    /// For `app:connected`.
    AppConnected,
    /// For `app:wipe-user-data`.
    AppWipeUserData,
    /// For `app:wipe-app-data`.
    AppWipeAppData,
    /// For `sync:start`.
    SyncStart,
    /// For `sync:pause`.
    SyncPause,
    /// For `sync:resume`.
    SyncResume,
    /// For `sync:status`.
    SyncStatus,
    /// For `sync:shutdown`.
    SyncShutdown,
    /// For `sync:get-pending`.
    SyncGetPending,
    /// For `sync:unfreeze-item`.
    SyncUnfreezeItem { sync_id: String },
    /// For `sync:delete-item`.
    SyncDeleteItem { sync_id: String },
    /// For `app:api:set-endpoint`.
    AppApiSetEndpoint { endpoint: String },
    /// For `app:shutdown`.
    AppShutdown,
    /// For `profile:load`.
    ProfileLoad,
    /// For `profile:sync:model`.
    ProfileSyncModel { action: SyncAction, ty: Json, data: Json },
    /// For `profile:space:set-owner`.
    ProfileSpaceSetOwner { space_id: String, user_id: String },
    /// For `profile:space:edit-member`.
    ProfileSpaceEditMember { member: Json, space_id: String },
    /// For `profile:space:delete-member`.
    ProfileSpaceDeleteMember { space_id: String, user_id: String },
    /// For `profile:space:leave`.
    ProfileSpaceLeave { space_id: String },
    /// For `profile:space:send-invite`.
    ProfileSpaceSendInvite { request: Json, space_id: String },
    /// For `profile:space:accept-invite`.
    ProfileSpaceAcceptInvite { invite: Json, passphrase: Option<String> },
    /// For `profile:space:edit-invite`.
    ProfileSpaceEditInvite { invite: Json, space_id: String },
    /// For `profile:space:delete-invite`.
    ProfileSpaceDeleteInvite { space_id: String, invite_id: String },
    /// For `profile:delete-invite`.
    ProfileDeleteInvite { invite_id: String },
    /// For `profile:get-notes`.
    ProfileGetNotes { note_ids: Vec<String> },
    /// For `profile:find-notes`.
    ProfileFindNotes { query: Json },
    /// For `profile:get-file`.
    ProfileGetFile { note_id: String },
    /// For `profile:get-tags`.
    ProfileGetTags { space_id: String, boards: Vec<String>, limit: i32 },
    /// For `profile:export`.
    ProfileExport,
    /// For `profile:import`.
    ProfileImport { mode: Json, export: Json },
    /// For `feedback:send`.
    FeedbackSend { feedback: Json },
    /// For `clip`.
    Clip { url: String, custom_parsers: Json },
    /// For `ping`.
    Ping,
}

/// The call that the request `command` asks for, with its arguments read
/// from the positions after the message id and the command, or the
/// first argument that is missing or of the wrong kind.
pub open spec fn planned(command: Command, m: JsonView, r: Result<Call, PlanError>) -> bool {
    match command {
        Command::UserLogin => match text_arg(m, 2) {
            Err(e) => r matches Err(x) && x == e,
            Ok(a0) => match text_arg(m, 3) {
                Err(e) => r matches Err(x) && x == e,
                Ok(a1) => r matches Ok(Call::UserLogin { username, password }) && username@ == a0 && password@ == a1,
            },
        },
        Command::UserJoin => match text_arg(m, 2) {
            Err(e) => r matches Err(x) && x == e,
            Ok(a0) => match text_arg(m, 3) {
                Err(e) => r matches Err(x) && x == e,
                Ok(a1) => r matches Ok(Call::UserJoin { username, password }) && username@ == a0 && password@ == a1,
            },
        },
        Command::UserCanMigrate => match text_arg(m, 2) {
            Err(e) => r matches Err(x) && x == e,
            Ok(a0) => match text_arg(m, 3) {
                Err(e) => r matches Err(x) && x == e,
                Ok(a1) => r matches Ok(Call::UserCanMigrate { username, password }) && username@ == a0 && password@ == a1,
            },
        },
        Command::UserJoinMigrate => match text_arg(m, 2) {
            Err(e) => r matches Err(x) && x == e,
            Ok(a0) => match text_arg(m, 3) {
                Err(e) => r matches Err(x) && x == e,
                Ok(a1) => match text_arg(m, 4) {
                    Err(e) => r matches Err(x) && x == e,
                    Ok(a2) => match text_arg(m, 5) {
                        Err(e) => r matches Err(x) && x == e,
                        Ok(a3) => r matches Ok(Call::UserJoinMigrate { old_username, old_password, new_username, new_password }) && old_username@ == a0 && old_password@ == a1 && new_username@ == a2 && new_password@ == a3,
                    },
                },
            },
        },
        Command::UserLogout => r matches Ok(Call::UserLogout),
        Command::UserChangePassword => match text_arg(m, 2) {
            Err(e) => r matches Err(x) && x == e,
            Ok(a0) => match text_arg(m, 3) {
                Err(e) => r matches Err(x) && x == e,
                Ok(a1) => match text_arg(m, 4) {
                    Err(e) => r matches Err(x) && x == e,
                    Ok(a2) => match text_arg(m, 5) {
                        Err(e) => r matches Err(x) && x == e,
                        Ok(a3) => r matches Ok(Call::UserChangePassword { current_username, current_password, new_username, new_password }) && current_username@ == a0 && current_password@ == a1 && new_username@ == a2 && new_password@ == a3,
                    },
                },
            },
        },
        Command::UserDeleteAccount => r matches Ok(Call::UserDeleteAccount),
        Command::UserFindByEmail => match text_arg(m, 2) {
            Err(e) => r matches Err(x) && x == e,
            Ok(a0) => r matches Ok(Call::UserFindByEmail { email }) && email@ == a0,
        },
        Command::AppConnected => r matches Ok(Call::AppConnected),
        Command::AppWipeUserData => r matches Ok(Call::AppWipeUserData),
        Command::AppWipeAppData => r matches Ok(Call::AppWipeAppData),
        Command::SyncStart => r matches Ok(Call::SyncStart),
        Command::SyncPause => r matches Ok(Call::SyncPause),
        Command::SyncResume => r matches Ok(Call::SyncResume),
        Command::SyncStatus => r matches Ok(Call::SyncStatus),
        Command::SyncShutdown => r matches Ok(Call::SyncShutdown),
        Command::SyncGetPending => r matches Ok(Call::SyncGetPending),
        Command::SyncUnfreezeItem => match text_arg(m, 2) {
            Err(e) => r matches Err(x) && x == e,
            Ok(a0) => r matches Ok(Call::SyncUnfreezeItem { sync_id }) && sync_id@ == a0,
        },
        Command::SyncDeleteItem => match text_arg(m, 2) {
            Err(e) => r matches Err(x) && x == e,
            Ok(a0) => r matches Ok(Call::SyncDeleteItem { sync_id }) && sync_id@ == a0,
        },
        Command::AppApiSetEndpoint => match text_arg(m, 2) {
            Err(e) => r matches Err(x) && x == e,
            Ok(a0) => r matches Ok(Call::AppApiSetEndpoint { endpoint }) && endpoint@ == a0,
        },
        Command::AppShutdown => r matches Ok(Call::AppShutdown),
        Command::ProfileLoad => r matches Ok(Call::ProfileLoad),
        Command::ProfileSyncModel => match action_arg(m, 2) {
            Err(e) => r matches Err(x) && x == e,
            Ok(a0) => match json_arg(m, 3) {
                Err(e) => r matches Err(x) && x == e,
                Ok(a1) => match json_arg(m, 4) {
                    Err(e) => r matches Err(x) && x == e,
                    Ok(a2) => r matches Ok(Call::ProfileSyncModel { action, ty, data }) && action == a0 && ty@ == a1 && data@ == a2,
                },
            },
        },
        Command::ProfileSpaceSetOwner => match text_arg(m, 2) {
            Err(e) => r matches Err(x) && x == e,
            Ok(a0) => match text_arg(m, 3) {
                Err(e) => r matches Err(x) && x == e,
                Ok(a1) => r matches Ok(Call::ProfileSpaceSetOwner { space_id, user_id }) && space_id@ == a0 && user_id@ == a1,
            },
        },
        Command::ProfileSpaceEditMember => match space_arg(m, 2) {
            Err(e) => r matches Err(x) && x == e,
            Ok(a0) => r matches Ok(Call::ProfileSpaceEditMember { member, space_id }) && member@ == a0.0 && space_id@ == a0.1,
        },
        Command::ProfileSpaceDeleteMember => match text_arg(m, 2) {
            Err(e) => r matches Err(x) && x == e,
            Ok(a0) => match text_arg(m, 3) {
                Err(e) => r matches Err(x) && x == e,
                Ok(a1) => r matches Ok(Call::ProfileSpaceDeleteMember { space_id, user_id }) && space_id@ == a0 && user_id@ == a1,
            },
        },
        Command::ProfileSpaceLeave => match text_arg(m, 2) {
            Err(e) => r matches Err(x) && x == e,
            Ok(a0) => r matches Ok(Call::ProfileSpaceLeave { space_id }) && space_id@ == a0,
        },
        Command::ProfileSpaceSendInvite => match space_arg(m, 2) {
            Err(e) => r matches Err(x) && x == e,
            Ok(a0) => r matches Ok(Call::ProfileSpaceSendInvite { request, space_id }) && request@ == a0.0 && space_id@ == a0.1,
        },
        Command::ProfileSpaceAcceptInvite => match json_arg(m, 2) {
            Err(e) => r matches Err(x) && x == e,
            Ok(a0) => {
                let a1 = opt_text_arg(m, 3);
                r matches Ok(Call::ProfileSpaceAcceptInvite { invite, passphrase }) && invite@ == a0 && opt_text_view(passphrase) == a1
            },
        },
        Command::ProfileSpaceEditInvite => match space_arg(m, 2) {
            Err(e) => r matches Err(x) && x == e,
            Ok(a0) => r matches Ok(Call::ProfileSpaceEditInvite { invite, space_id }) && invite@ == a0.0 && space_id@ == a0.1,
        },
        Command::ProfileSpaceDeleteInvite => match text_arg(m, 2) {
            Err(e) => r matches Err(x) && x == e,
            Ok(a0) => match text_arg(m, 3) {
                Err(e) => r matches Err(x) && x == e,
                Ok(a1) => r matches Ok(Call::ProfileSpaceDeleteInvite { space_id, invite_id }) && space_id@ == a0 && invite_id@ == a1,
            },
        },
        Command::ProfileDeleteInvite => match text_arg(m, 2) {
            Err(e) => r matches Err(x) && x == e,
            Ok(a0) => r matches Ok(Call::ProfileDeleteInvite { invite_id }) && invite_id@ == a0,
        },
        Command::ProfileGetNotes => match texts_arg(m, 2) {
            Err(e) => r matches Err(x) && x == e,
            Ok(a0) => r matches Ok(Call::ProfileGetNotes { note_ids }) && note_ids@.map_values(|s: String| s@) == a0,
        },
        Command::ProfileFindNotes => match json_arg(m, 2) {
            Err(e) => r matches Err(x) && x == e,
            Ok(a0) => r matches Ok(Call::ProfileFindNotes { query }) && query@ == a0,
        },
        Command::ProfileGetFile => match text_arg(m, 2) {
            Err(e) => r matches Err(x) && x == e,
            Ok(a0) => r matches Ok(Call::ProfileGetFile { note_id }) && note_id@ == a0,
        },
        Command::ProfileGetTags => match text_arg(m, 2) {
            Err(e) => r matches Err(x) && x == e,
            Ok(a0) => match texts_arg(m, 3) {
                Err(e) => r matches Err(x) && x == e,
                Ok(a1) => match int_arg(m, 4) {
                    Err(e) => r matches Err(x) && x == e,
                    Ok(a2) => r matches Ok(Call::ProfileGetTags { space_id, boards, limit }) && space_id@ == a0 && boards@.map_values(|s: String| s@) == a1 && limit as int == a2,
                },
            },
        },
        Command::ProfileExport => r matches Ok(Call::ProfileExport),
        Command::ProfileImport => match json_arg(m, 2) {
            Err(e) => r matches Err(x) && x == e,
            Ok(a0) => match json_arg(m, 3) {
                Err(e) => r matches Err(x) && x == e,
                Ok(a1) => r matches Ok(Call::ProfileImport { mode, export }) && mode@ == a0 && export@ == a1,
            },
        },
        Command::FeedbackSend => match json_arg(m, 2) {
            Err(e) => r matches Err(x) && x == e,
            Ok(a0) => r matches Ok(Call::FeedbackSend { feedback }) && feedback@ == a0,
        },
        Command::Clip => match text_arg(m, 2) {
            Err(e) => r matches Err(x) && x == e,
            Ok(a0) => match json_arg(m, 3) {
                Err(e) => r matches Err(x) && x == e,
                Ok(a1) => r matches Ok(Call::Clip { url, custom_parsers }) && url@ == a0 && custom_parsers@ == a1,
            },
        },
        Command::Ping => r matches Ok(Call::Ping),
    }
}

/// Reads the arguments of a request for `command` from the message.
pub fn plan_request(command: Command, msg: &Json) -> (r: Result<Call, PlanError>)
    ensures
        planned(command, msg@, r),
{
    match command {
        Command::UserLogin => {
            let username = read_text(msg, 2)?;
            let password = read_text(msg, 3)?;
            Ok(Call::UserLogin { username, password })
        },
        Command::UserJoin => {
            let username = read_text(msg, 2)?;
            let password = read_text(msg, 3)?;
            Ok(Call::UserJoin { username, password })
        },
        Command::UserCanMigrate => {
            let username = read_text(msg, 2)?;
            let password = read_text(msg, 3)?;
            Ok(Call::UserCanMigrate { username, password })
        },
        Command::UserJoinMigrate => {
            let old_username = read_text(msg, 2)?;
            let old_password = read_text(msg, 3)?;
            let new_username = read_text(msg, 4)?;
            let new_password = read_text(msg, 5)?;
            Ok(Call::UserJoinMigrate { old_username, old_password, new_username, new_password })
        },
        Command::UserLogout => Ok(Call::UserLogout),
        Command::UserChangePassword => {
            let current_username = read_text(msg, 2)?;
            let current_password = read_text(msg, 3)?;
            let new_username = read_text(msg, 4)?;
            let new_password = read_text(msg, 5)?;
            Ok(Call::UserChangePassword { current_username, current_password, new_username, new_password })
        },
        Command::UserDeleteAccount => Ok(Call::UserDeleteAccount),
        Command::UserFindByEmail => {
            let email = read_text(msg, 2)?;
            Ok(Call::UserFindByEmail { email })
        },
        Command::AppConnected => Ok(Call::AppConnected),
        Command::AppWipeUserData => Ok(Call::AppWipeUserData),
        Command::AppWipeAppData => Ok(Call::AppWipeAppData),
        Command::SyncStart => Ok(Call::SyncStart),
        Command::SyncPause => Ok(Call::SyncPause),
        Command::SyncResume => Ok(Call::SyncResume),
        Command::SyncStatus => Ok(Call::SyncStatus),
        Command::SyncShutdown => Ok(Call::SyncShutdown),
        Command::SyncGetPending => Ok(Call::SyncGetPending),
        Command::SyncUnfreezeItem => {
            let sync_id = read_text(msg, 2)?;
            Ok(Call::SyncUnfreezeItem { sync_id })
        },
        Command::SyncDeleteItem => {
            let sync_id = read_text(msg, 2)?;
            Ok(Call::SyncDeleteItem { sync_id })
        },
        Command::AppApiSetEndpoint => {
            let endpoint = read_text(msg, 2)?;
            Ok(Call::AppApiSetEndpoint { endpoint })
        },
        Command::AppShutdown => Ok(Call::AppShutdown),
        Command::ProfileLoad => Ok(Call::ProfileLoad),
        Command::ProfileSyncModel => {
            let action = read_action(msg, 2)?;
            let ty = read_json(msg, 3)?;
            let data = read_json(msg, 4)?;
            Ok(Call::ProfileSyncModel { action, ty, data })
        },
        Command::ProfileSpaceSetOwner => {
            let space_id = read_text(msg, 2)?;
            let user_id = read_text(msg, 3)?;
            Ok(Call::ProfileSpaceSetOwner { space_id, user_id })
        },
        Command::ProfileSpaceEditMember => {
            let (member, space_id) = read_space(msg, 2)?;
            Ok(Call::ProfileSpaceEditMember { member, space_id })
        },
        Command::ProfileSpaceDeleteMember => {
            let space_id = read_text(msg, 2)?;
            let user_id = read_text(msg, 3)?;
            Ok(Call::ProfileSpaceDeleteMember { space_id, user_id })
        },
        Command::ProfileSpaceLeave => {
            let space_id = read_text(msg, 2)?;
            Ok(Call::ProfileSpaceLeave { space_id })
        },
        Command::ProfileSpaceSendInvite => {
            let (request, space_id) = read_space(msg, 2)?;
            Ok(Call::ProfileSpaceSendInvite { request, space_id })
        },
        Command::ProfileSpaceAcceptInvite => {
            let invite = read_json(msg, 2)?;
            let passphrase = read_opt_text(msg, 3);
            Ok(Call::ProfileSpaceAcceptInvite { invite, passphrase })
        },
        Command::ProfileSpaceEditInvite => {
            let (invite, space_id) = read_space(msg, 2)?;
            Ok(Call::ProfileSpaceEditInvite { invite, space_id })
        },
        Command::ProfileSpaceDeleteInvite => {
            let space_id = read_text(msg, 2)?;
            let invite_id = read_text(msg, 3)?;
            Ok(Call::ProfileSpaceDeleteInvite { space_id, invite_id })
        },
        Command::ProfileDeleteInvite => {
            let invite_id = read_text(msg, 2)?;
            Ok(Call::ProfileDeleteInvite { invite_id })
        },
        Command::ProfileGetNotes => {
            let note_ids = read_texts(msg, 2)?;
            Ok(Call::ProfileGetNotes { note_ids })
        },
        Command::ProfileFindNotes => {
            let query = read_json(msg, 2)?;
            Ok(Call::ProfileFindNotes { query })
        },
        Command::ProfileGetFile => {
            let note_id = read_text(msg, 2)?;
            Ok(Call::ProfileGetFile { note_id })
        },
        Command::ProfileGetTags => {
            let space_id = read_text(msg, 2)?;
            let boards = read_texts(msg, 3)?;
            let limit = read_int(msg, 4)?;
            Ok(Call::ProfileGetTags { space_id, boards, limit })
        },
        Command::ProfileExport => Ok(Call::ProfileExport),
        Command::ProfileImport => {
            let mode = read_json(msg, 2)?;
            let export = read_json(msg, 3)?;
            Ok(Call::ProfileImport { mode, export })
        },
        Command::FeedbackSend => {
            let feedback = read_json(msg, 2)?;
            Ok(Call::FeedbackSend { feedback })
        },
        Command::Clip => {
            let url = read_text(msg, 2)?;
            let custom_parsers = read_json(msg, 3)?;
            Ok(Call::Clip { url, custom_parsers })
        },
        Command::Ping => Ok(Call::Ping),
    }
}

/// What the application's services gave back for a call.
#[derive(Debug)]
pub enum Outcome {
    /// The call was carried out and gives nothing back.
    Done,
    /// The call gave back this value.
    Value(Json),
    /// The call gave back a yes or a no.
    Flag(bool),
    /// The call gave back a text.
    Text(String),
    /// The space that the call names does not exist.
    NoSpace,
    /// There is no search index to ask.
    NoSearch,
}

/// The space that a call names, if it is one of the space calls.
pub open spec fn space_of(c: Call) -> Option<Seq<char>> {
    match c {
        Call::ProfileSpaceSetOwner { space_id, .. } => Some(space_id@),
        Call::ProfileSpaceEditMember { space_id, .. } => Some(space_id@),
        Call::ProfileSpaceDeleteMember { space_id, .. } => Some(space_id@),
        Call::ProfileSpaceLeave { space_id } => Some(space_id@),
        Call::ProfileSpaceSendInvite { space_id, .. } => Some(space_id@),
        Call::ProfileSpaceEditInvite { space_id, .. } => Some(space_id@),
        Call::ProfileSpaceDeleteInvite { space_id, .. } => Some(space_id@),
        _ => None,
    }
}

impl Call {
    /// The space that this call names, if it is one of the space calls.
    pub fn space_id(&self) -> (r: Option<&String>)
        ensures
            match r {
                Some(s) => space_of(*self) == Some(s@),
                None => space_of(*self) is None,
            },
    {
        match self {
            Call::ProfileSpaceSetOwner { space_id, .. } => Some(space_id),
            Call::ProfileSpaceEditMember { space_id, .. } => Some(space_id),
            Call::ProfileSpaceDeleteMember { space_id, .. } => Some(space_id),
            Call::ProfileSpaceLeave { space_id } => Some(space_id),
            Call::ProfileSpaceSendInvite { space_id, .. } => Some(space_id),
            Call::ProfileSpaceEditInvite { space_id, .. } => Some(space_id),
            Call::ProfileSpaceDeleteInvite { space_id, .. } => Some(space_id),
            _ => None,
        }
    }
}

/// The answer to a request, from what its call gave back: `ping` is always
/// answered `"pong"`; a finished call with nothing to give is answered with
/// an empty object (`null` for `profile:get-file`); a value, a yes or no or a
/// text is the answer itself; a missing space or search index is an error.
pub open spec fn answered(call: Call, outcome: Outcome, r: Result<Json, DispatchError>) -> bool {
    if call is Ping {
        r matches Ok(j) && j@ == JsonView::Str("pong"@)
    } else {
        match outcome {
            Outcome::Done => r matches Ok(j) && j@ == (if call is ProfileGetFile {
                JsonView::Null
            } else {
                JsonView::Object(Seq::empty())
            }),
            Outcome::Value(v) => r matches Ok(j) && j@ == v@,
            Outcome::Flag(b) => r matches Ok(j) && j@ == JsonView::Bool(b),
            Outcome::Text(t) => r matches Ok(j) && j@ == JsonView::Str(t@),
            Outcome::NoSpace => r matches Err(DispatchError::MissingData(x)) && x@
                == "couldn't find space "@ + match space_of(call) {
                Some(s) => s,
                None => Seq::empty(),
            },
            Outcome::NoSearch => r matches Err(DispatchError::MissingField(x)) && x@
                == "turtl is missing `search` object"@,
        }
    }
}

/// Gives the answer to a request from what its call gave back.
pub fn answer(call: &Call, outcome: Outcome) -> (r: Result<Json, DispatchError>)
    ensures
        answered(*call, outcome, r),
{
    if let Call::Ping = call {
        return Ok(Json::Str(String::from_str("pong")));
    }
    match outcome {
        Outcome::Done => {
            if let Call::ProfileGetFile { .. } = call {
                Ok(Json::Null)
            } else {
                let j = Json::Object(Vec::new());
                assert(j@ == JsonView::Object(Seq::empty())) by {
                    assert(crate::json::members_view(Seq::<(String, Json)>::empty()) =~= Seq::empty());
                }
                Ok(j)
            }
        },
        Outcome::Value(v) => Ok(v),
        Outcome::Flag(b) => Ok(Json::Bool(b)),
        Outcome::Text(t) => Ok(Json::Str(t)),
        Outcome::NoSpace => {
            let id = match call.space_id() {
                Some(s) => s.clone(),
                None => String::new(),
            };
            Err(DispatchError::MissingData(String::from_str("couldn't find space ").concat(id.as_str())))
        },
        Outcome::NoSearch => Err(DispatchError::MissingField(String::from_str("turtl is missing `search` object"))),
    }
}

// ---------------------------------------------------------------------------
// Events
// ---------------------------------------------------------------------------

/// A call on the application's services that an event asks for.
#[derive(Debug)]
pub enum EventCall {
    /// Records whether the core is connected.
    SetConnected(bool),
    /// Takes in the changes that sync brought.
    ProcessIncoming,
    /// Merges these fields into the user.
    MergeUser(Json),
    /// Tells the interface, waits, and logs out after a password change.
    PasswordChangeLogout,
    /// Deletes a space.
    DeleteSpace { space_id: String, skip_remote_sync: bool },
    /// An unknown event, which is only reported.
    Ignore(String),
}

/// The call that an event asks for, from its data.
pub open spec fn event_planned(kind: EventKind, d: JsonView, r: Result<EventCall, PlanError>) -> bool {
    match kind {
        EventKind::SyncConnected => match d {
            JsonView::Bool(b) => r matches Ok(EventCall::SetConnected(c)) && c == b,
            _ => r matches Err(x) && x == PlanError::BadEventData,
        },
        EventKind::SyncIncoming => r matches Ok(EventCall::ProcessIncoming),
        EventKind::UserEdit => r matches Ok(EventCall::MergeUser(j)) && j@ == d,
        EventKind::ChangePasswordLogout => r matches Ok(EventCall::PasswordChangeLogout),
        EventKind::SpaceDelete => match text_arg(d, 0) {
            Err(e) => r matches Err(x) && x == e,
            Ok(id) => r matches Ok(EventCall::DeleteSpace { space_id, skip_remote_sync })
                && space_id@ == id && skip_remote_sync == (element_of(d, 1) == Some(
                JsonView::Bool(true),
            )),
        },
        EventKind::Unknown(n) => r matches Ok(EventCall::Ignore(m)) && m@ == n@,
    }
}

/// Reads what an event asks for from its data.
pub fn plan_event(kind: &EventKind, data: &Json) -> (r: Result<EventCall, PlanError>)
    ensures
        event_planned(*kind, data@, r),
{
    match kind {
        EventKind::SyncConnected => match data {
            Json::Bool(b) => Ok(EventCall::SetConnected(*b)),
            _ => Err(PlanError::BadEventData),
        },
        EventKind::SyncIncoming => Ok(EventCall::ProcessIncoming),
        EventKind::UserEdit => Ok(EventCall::MergeUser(data.duplicate())),
        EventKind::ChangePasswordLogout => Ok(EventCall::PasswordChangeLogout),
        EventKind::SpaceDelete => {
            let space_id = read_text(data, 0)?;
            let skip_remote_sync = match data.element(1) {
                Some(Json::Bool(b)) => *b,
                _ => false,
            };
            Ok(EventCall::DeleteSpace { space_id, skip_remote_sync })
        },
        EventKind::Unknown(n) => Ok(EventCall::Ignore(n.clone())),
    }
}

// ---------------------------------------------------------------------------
// Laws
// ---------------------------------------------------------------------------

/// Every request reads its arguments from the positions after the message
/// id and the command, in the order the service call takes them: a text
/// argument is the text at its position, an argument passed on is the value
/// at its position, and an optional text is the text at its position when
/// there is one.
pub proof fn law_plan_arguments(command: Command, m: JsonView, r: Result<Call, PlanError>)
    requires
        planned(command, m, r),
    ensures
        command == Command::UserLogin && m is Array && m->Array_0.len() >= 4 && m->Array_0[2] is Str && m->Array_0[3] is Str
            ==> (r matches Ok(Call::UserLogin { username, password }) && username@ == m->Array_0[2]->Str_0 && password@ == m->Array_0[3]->Str_0),
        command == Command::UserJoin && m is Array && m->Array_0.len() >= 4 && m->Array_0[2] is Str && m->Array_0[3] is Str
            ==> (r matches Ok(Call::UserJoin { username, password }) && username@ == m->Array_0[2]->Str_0 && password@ == m->Array_0[3]->Str_0),
        command == Command::UserCanMigrate && m is Array && m->Array_0.len() >= 4 && m->Array_0[2] is Str && m->Array_0[3] is Str
            ==> (r matches Ok(Call::UserCanMigrate { username, password }) && username@ == m->Array_0[2]->Str_0 && password@ == m->Array_0[3]->Str_0),
        command == Command::UserJoinMigrate && m is Array && m->Array_0.len() >= 6 && m->Array_0[2] is Str && m->Array_0[3] is Str && m->Array_0[4] is Str && m->Array_0[5] is Str
            ==> (r matches Ok(Call::UserJoinMigrate { old_username, old_password, new_username, new_password }) && old_username@ == m->Array_0[2]->Str_0 && old_password@ == m->Array_0[3]->Str_0 && new_username@ == m->Array_0[4]->Str_0 && new_password@ == m->Array_0[5]->Str_0),
        command == Command::UserLogout ==> (r matches Ok(Call::UserLogout)),
        command == Command::UserChangePassword && m is Array && m->Array_0.len() >= 6 && m->Array_0[2] is Str && m->Array_0[3] is Str && m->Array_0[4] is Str && m->Array_0[5] is Str
            ==> (r matches Ok(Call::UserChangePassword { current_username, current_password, new_username, new_password }) && current_username@ == m->Array_0[2]->Str_0 && current_password@ == m->Array_0[3]->Str_0 && new_username@ == m->Array_0[4]->Str_0 && new_password@ == m->Array_0[5]->Str_0),
        command == Command::UserDeleteAccount ==> (r matches Ok(Call::UserDeleteAccount)),
        command == Command::UserFindByEmail && m is Array && m->Array_0.len() >= 3 && m->Array_0[2] is Str
            ==> (r matches Ok(Call::UserFindByEmail { email }) && email@ == m->Array_0[2]->Str_0),
        command == Command::AppConnected ==> (r matches Ok(Call::AppConnected)),
        command == Command::AppWipeUserData ==> (r matches Ok(Call::AppWipeUserData)),
        command == Command::AppWipeAppData ==> (r matches Ok(Call::AppWipeAppData)),
        command == Command::SyncStart ==> (r matches Ok(Call::SyncStart)),
        command == Command::SyncPause ==> (r matches Ok(Call::SyncPause)),
        command == Command::SyncResume ==> (r matches Ok(Call::SyncResume)),
        command == Command::SyncStatus ==> (r matches Ok(Call::SyncStatus)),
        command == Command::SyncShutdown ==> (r matches Ok(Call::SyncShutdown)),
        command == Command::SyncGetPending ==> (r matches Ok(Call::SyncGetPending)),
        command == Command::SyncUnfreezeItem && m is Array && m->Array_0.len() >= 3 && m->Array_0[2] is Str
            ==> (r matches Ok(Call::SyncUnfreezeItem { sync_id }) && sync_id@ == m->Array_0[2]->Str_0),
        command == Command::SyncDeleteItem && m is Array && m->Array_0.len() >= 3 && m->Array_0[2] is Str
            ==> (r matches Ok(Call::SyncDeleteItem { sync_id }) && sync_id@ == m->Array_0[2]->Str_0),
        command == Command::AppApiSetEndpoint && m is Array && m->Array_0.len() >= 3 && m->Array_0[2] is Str
            ==> (r matches Ok(Call::AppApiSetEndpoint { endpoint }) && endpoint@ == m->Array_0[2]->Str_0),
        command == Command::AppShutdown ==> (r matches Ok(Call::AppShutdown)),
        command == Command::ProfileLoad ==> (r matches Ok(Call::ProfileLoad)),
        command == Command::ProfileSpaceSetOwner && m is Array && m->Array_0.len() >= 4 && m->Array_0[2] is Str && m->Array_0[3] is Str
            ==> (r matches Ok(Call::ProfileSpaceSetOwner { space_id, user_id }) && space_id@ == m->Array_0[2]->Str_0 && user_id@ == m->Array_0[3]->Str_0),
        command == Command::ProfileSpaceEditMember && m is Array && m->Array_0.len() >= 3 && text_of(member_of(m->Array_0[2], "space_id"@)) is Some
            ==> (r matches Ok(Call::ProfileSpaceEditMember { member, space_id }) && member@ == m->Array_0[2] && member_of(m->Array_0[2], "space_id"@) == Some(JsonView::Str(space_id@))),
        command == Command::ProfileSpaceDeleteMember && m is Array && m->Array_0.len() >= 4 && m->Array_0[2] is Str && m->Array_0[3] is Str
            ==> (r matches Ok(Call::ProfileSpaceDeleteMember { space_id, user_id }) && space_id@ == m->Array_0[2]->Str_0 && user_id@ == m->Array_0[3]->Str_0),
        command == Command::ProfileSpaceLeave && m is Array && m->Array_0.len() >= 3 && m->Array_0[2] is Str
            ==> (r matches Ok(Call::ProfileSpaceLeave { space_id }) && space_id@ == m->Array_0[2]->Str_0),
        command == Command::ProfileSpaceSendInvite && m is Array && m->Array_0.len() >= 3 && text_of(member_of(m->Array_0[2], "space_id"@)) is Some
            ==> (r matches Ok(Call::ProfileSpaceSendInvite { request, space_id }) && request@ == m->Array_0[2] && member_of(m->Array_0[2], "space_id"@) == Some(JsonView::Str(space_id@))),
        command == Command::ProfileSpaceAcceptInvite && m is Array && m->Array_0.len() >= 3
            ==> (r matches Ok(Call::ProfileSpaceAcceptInvite { invite, passphrase }) && invite@ == m->Array_0[2] && (3 < m->Array_0.len() && m->Array_0[3] is Str ==> opt_text_view(passphrase) == Some(m->Array_0[3]->Str_0)) && (m->Array_0.len() <= 3 || !(m->Array_0[3] is Str) ==> passphrase is None)),
        command == Command::ProfileSpaceEditInvite && m is Array && m->Array_0.len() >= 3 && text_of(member_of(m->Array_0[2], "space_id"@)) is Some
            ==> (r matches Ok(Call::ProfileSpaceEditInvite { invite, space_id }) && invite@ == m->Array_0[2] && member_of(m->Array_0[2], "space_id"@) == Some(JsonView::Str(space_id@))),
        command == Command::ProfileSpaceDeleteInvite && m is Array && m->Array_0.len() >= 4 && m->Array_0[2] is Str && m->Array_0[3] is Str
            ==> (r matches Ok(Call::ProfileSpaceDeleteInvite { space_id, invite_id }) && space_id@ == m->Array_0[2]->Str_0 && invite_id@ == m->Array_0[3]->Str_0),
        command == Command::ProfileDeleteInvite && m is Array && m->Array_0.len() >= 3 && m->Array_0[2] is Str
            ==> (r matches Ok(Call::ProfileDeleteInvite { invite_id }) && invite_id@ == m->Array_0[2]->Str_0),
        command == Command::ProfileFindNotes && m is Array && m->Array_0.len() >= 3
            ==> (r matches Ok(Call::ProfileFindNotes { query }) && query@ == m->Array_0[2]),
        command == Command::ProfileGetFile && m is Array && m->Array_0.len() >= 3 && m->Array_0[2] is Str
            ==> (r matches Ok(Call::ProfileGetFile { note_id }) && note_id@ == m->Array_0[2]->Str_0),
        command == Command::ProfileExport ==> (r matches Ok(Call::ProfileExport)),
        command == Command::ProfileImport && m is Array && m->Array_0.len() >= 4
            ==> (r matches Ok(Call::ProfileImport { mode, export }) && mode@ == m->Array_0[2] && export@ == m->Array_0[3]),
        command == Command::FeedbackSend && m is Array && m->Array_0.len() >= 3
            ==> (r matches Ok(Call::FeedbackSend { feedback }) && feedback@ == m->Array_0[2]),
        command == Command::Clip && m is Array && m->Array_0.len() >= 4 && m->Array_0[2] is Str
            ==> (r matches Ok(Call::Clip { url, custom_parsers }) && url@ == m->Array_0[2]->Str_0 && custom_parsers@ == m->Array_0[3]),
        command == Command::Ping ==> (r matches Ok(Call::Ping)),
{
}

proof fn lemma_texts_read(v: Seq<String>, items: Seq<JsonView>)
    requires
        v.map_values(|s: String| s@) == items.map_values(|j: JsonView| j->Str_0),
    ensures
        v.len() == items.len(),
        forall|k: int| 0 <= k < v.len() ==> #[trigger] v[k]@ == items[k]->Str_0,
{
    let fv = v.map_values(|s: String| s@);
    let fi = items.map_values(|j: JsonView| j->Str_0);
    assert(fv.len() == v.len());
    assert(fi.len() == items.len());
    assert forall|k: int| 0 <= k < v.len() implies #[trigger] v[k]@ == items[k]->Str_0 by {
        assert(v.map_values(|s: String| s@)[k] == v[k]@);
        assert(items.map_values(|j: JsonView| j->Str_0)[k] == items[k]->Str_0);
    }
}

/// `profile:get-notes` reads the ids of its notes from the list of texts at
/// position 2, in order.
pub proof fn law_notes_arguments(m: JsonView, r: Result<Call, PlanError>)
    requires
        planned(Command::ProfileGetNotes, m, r),
    ensures
        m is Array && m->Array_0.len() >= 3 && m->Array_0[2] is Array && (forall|k: int|
            0 <= k < m->Array_0[2]->Array_0.len() ==> #[trigger] m->Array_0[2]->Array_0[k] is Str)
            ==> (r matches Ok(Call::ProfileGetNotes { note_ids }) && note_ids@.len()
            == m->Array_0[2]->Array_0.len() && forall|k: int|
            0 <= k < note_ids@.len() ==> #[trigger] note_ids@[k]@ == m->Array_0[2]->Array_0[k]->Str_0),
{
    if m is Array && m->Array_0.len() >= 3 && m->Array_0[2] is Array && (forall|k: int|
        0 <= k < m->Array_0[2]->Array_0.len() ==> #[trigger] m->Array_0[2]->Array_0[k] is Str) {
        assert(all_texts(m->Array_0[2]->Array_0));
        match r {
            Ok(Call::ProfileGetNotes { note_ids }) => {
                lemma_texts_read(note_ids@, m->Array_0[2]->Array_0);
            },
            _ => {},
        }
    }
}

/// `profile:sync:model` reads the name of its sync action at position 2
/// first: an action's name gives that action, with the values at positions
/// 3 and 4 passed on; anything else is a bad sync action, whatever follows.
pub proof fn law_sync_model_action(m: JsonView, r: Result<Call, PlanError>, a: SyncAction)
    requires
        planned(Command::ProfileSyncModel, m, r),
    ensures
        m is Array && m->Array_0.len() >= 5 && m->Array_0[2] == JsonView::Str(sync_action_name(a))
            ==> (r matches Ok(Call::ProfileSyncModel { action, ty, data }) && action == a && ty@
            == m->Array_0[3] && data@ == m->Array_0[4]),
        m is Array && m->Array_0.len() > 2 && (forall|b: SyncAction| m->Array_0[2] != JsonView::Str(
            #[trigger] sync_action_name(b),
        )) ==> (r matches Err(e) && e == PlanError::BadSyncAction),
        !(m is Array) || m->Array_0.len() <= 2 ==> (r matches Err(e) && e == PlanError::BadSyncAction),
{
    law_sync_action_name_round_trip(a, sync_action_name(a));
    if m is Array && m->Array_0.len() > 2 && m->Array_0[2] is Str {
        let s = m->Array_0[2]->Str_0;
        law_sync_action_name_round_trip(a, s);
        if sync_action_of_name(s) is Some {
            assert(m->Array_0[2] == JsonView::Str(sync_action_name(sync_action_of_name(s).unwrap())));
        }
    }
}

/// `profile:get-tags` reads its limit from the decimal text of an integer at
/// position 4: as that integer when it fits in 32 bits, and as a bad
/// argument otherwise.
pub proof fn law_tags_limit(m: JsonView, r: Result<Call, PlanError>, n: int)
    requires
        planned(Command::ProfileGetTags, m, r),
    ensures
        !(i32::MIN <= n <= i32::MAX) && m is Array && m->Array_0.len() >= 5 && m->Array_0[2] is Str
            && m->Array_0[3] is Array && (forall|k: int|
            0 <= k < m->Array_0[3]->Array_0.len() ==> #[trigger] m->Array_0[3]->Array_0[k] is Str)
            && m->Array_0[4] == JsonView::Number(int_text(n)) ==> (r matches Err(e) && e
            == PlanError::BadArgument(4)),
        i32::MIN <= n <= i32::MAX && m is Array && m->Array_0.len() >= 5 && m->Array_0[2] is Str && m->Array_0[3] is Array && (
        forall|k: int|
            0 <= k < m->Array_0[3]->Array_0.len() ==> #[trigger] m->Array_0[3]->Array_0[k] is Str)
            && m->Array_0[4] == JsonView::Number(int_text(n)) ==> (r matches Ok(
            Call::ProfileGetTags { space_id, boards, limit },
        ) && space_id@ == m->Array_0[2]->Str_0 && limit as int == n && boards@.len()
            == m->Array_0[3]->Array_0.len()),
{
    law_int_text_round_trip(n);
    if m is Array && m->Array_0.len() >= 5 && m->Array_0[3] is Array && all_texts(m->Array_0[3]->Array_0) {
        match r {
            Ok(Call::ProfileGetTags { boards, .. }) => {
                lemma_texts_read(boards@, m->Array_0[3]->Array_0);
            },
            _ => {},
        }
    }
}

/// The answer to `ping` is `"pong"`; to any other call, a yes or no, a text
/// or a value that the call gave back is the answer itself, a call done
/// with nothing to give is answered `{}` (`null` for `profile:get-file`),
/// and a missing space or search index is an error that says so.
pub proof fn law_answer(call: Call, outcome: Outcome, r: Result<Json, DispatchError>)
    requires
        answered(call, outcome, r),
    ensures
        call is Ping ==> (r matches Ok(j) && j@ == JsonView::Str("pong"@)),
        !(call is Ping) && outcome is Flag ==> (r matches Ok(j) && j@ == JsonView::Bool(
            outcome->Flag_0,
        )),
        !(call is Ping) && outcome is Text ==> (r matches Ok(j) && j@ == JsonView::Str(
            outcome->Text_0@,
        )),
        !(call is Ping) && outcome is Value ==> (r matches Ok(j) && j@ == outcome->Value_0@),
        !(call is Ping) && !(call is ProfileGetFile) && outcome is Done ==> (r matches Ok(j) && j@
            == JsonView::Object(Seq::empty())),
        call is ProfileGetFile && outcome is Done ==> (r matches Ok(j) && j@ == JsonView::Null),
        !(call is Ping) && outcome is NoSearch ==> (r matches Err(DispatchError::MissingField(x))
            && x@ == "turtl is missing `search` object"@),
        !(call is Ping) && outcome is NoSpace && (call matches Call::ProfileSpaceSetOwner { space_id, .. }) ==> (r matches Err(
            DispatchError::MissingData(x),
        ) && x@ == "couldn't find space "@ + call->ProfileSpaceSetOwner_space_id@),
        !(call is Ping) && outcome is NoSpace && (call matches Call::ProfileSpaceEditMember { space_id, .. }) ==> (r matches Err(
            DispatchError::MissingData(x),
        ) && x@ == "couldn't find space "@ + call->ProfileSpaceEditMember_space_id@),
        !(call is Ping) && outcome is NoSpace && (call matches Call::ProfileSpaceDeleteMember { space_id, .. }) ==> (r matches Err(
            DispatchError::MissingData(x),
        ) && x@ == "couldn't find space "@ + call->ProfileSpaceDeleteMember_space_id@),
        !(call is Ping) && outcome is NoSpace && (call matches Call::ProfileSpaceLeave { space_id }) ==> (r matches Err(
            DispatchError::MissingData(x),
        ) && x@ == "couldn't find space "@ + call->ProfileSpaceLeave_space_id@),
        !(call is Ping) && outcome is NoSpace && (call matches Call::ProfileSpaceSendInvite { space_id, .. }) ==> (r matches Err(
            DispatchError::MissingData(x),
        ) && x@ == "couldn't find space "@ + call->ProfileSpaceSendInvite_space_id@),
        !(call is Ping) && outcome is NoSpace && (call matches Call::ProfileSpaceEditInvite { space_id, .. }) ==> (r matches Err(
            DispatchError::MissingData(x),
        ) && x@ == "couldn't find space "@ + call->ProfileSpaceEditInvite_space_id@),
        !(call is Ping) && outcome is NoSpace && (call matches Call::ProfileSpaceDeleteInvite { space_id, .. }) ==> (r matches Err(
            DispatchError::MissingData(x),
        ) && x@ == "couldn't find space "@ + call->ProfileSpaceDeleteInvite_space_id@),
{
}

/// An event asks for the call its data says: `sync:connected` sets the
/// connection to the boolean it carries; `space:delete` deletes the space
/// named at position 0, skipping the server exactly when position 1 is
/// `true`; `user:edit` passes its data on; unknown events are only reported.
pub proof fn law_event_plan(kind: EventKind, d: JsonView, r: Result<EventCall, PlanError>)
    requires
        event_planned(kind, d, r),
    ensures
        kind == EventKind::SyncConnected && d is Bool ==> (r matches Ok(EventCall::SetConnected(c))
            && c == d->Bool_0),
        kind == EventKind::SyncConnected && !(d is Bool) ==> (r matches Err(e) && e
            == PlanError::BadEventData),
        kind == EventKind::SyncIncoming ==> (r matches Ok(EventCall::ProcessIncoming)),
        kind == EventKind::ChangePasswordLogout ==> (r matches Ok(EventCall::PasswordChangeLogout)),
        kind == EventKind::UserEdit ==> (r matches Ok(EventCall::MergeUser(j)) && j@ == d),
        kind == EventKind::SpaceDelete && d is Array && d->Array_0.len() >= 1 && d->Array_0[0] is Str
            ==> (r matches Ok(EventCall::DeleteSpace { space_id, skip_remote_sync }) && space_id@
            == d->Array_0[0]->Str_0 && (d->Array_0.len() >= 2 && d->Array_0[1] is Bool
            ==> skip_remote_sync == d->Array_0[1]->Bool_0) && (d->Array_0.len() < 2
            || !(d->Array_0[1] is Bool) ==> !skip_remote_sync)),
        kind matches EventKind::Unknown(n) ==> (r matches Ok(EventCall::Ignore(x)) && x@ == n@),
{
}

proof fn lemma_encode_concat(a: Seq<char>, b: Seq<char>)
    ensures
        encode_utf8(a + b) == encode_utf8(a) + encode_utf8(b),
    decreases a.len(),
{
    if a.len() > 0 {
        assert((a + b).drop_first() =~= a.drop_first() + b);
        assert((a + b)[0] == a[0]);
        lemma_encode_concat(a.drop_first(), b);
        assert(encode_scalar(a[0] as u32) + (encode_utf8(a.drop_first()) + encode_utf8(b))
            =~= (encode_scalar(a[0] as u32) + encode_utf8(a.drop_first())) + encode_utf8(b));
    } else {
        assert(a + b =~= b);
        assert(encode_utf8(a) + encode_utf8(b) =~= encode_utf8(b));
    }
}

/// A message is an event exactly when its text starts with `::ev`: every
/// text that starts so is an event, and a text that starts with any other
/// ASCII characters is a request.
pub proof fn law_event_marker(head: Seq<char>, rest: Seq<char>)
    requires
        head.len() == 4,
        is_ascii_chars(head),
    ensures
        is_event_message(encode_utf8(head + rest)) == (head == seq![':', ':', 'e', 'v']),
{
    lemma_encode_concat(head, rest);
    is_ascii_chars_encode_utf8(head);
    let b = encode_utf8(head + rest);
    assert(b.subrange(0, 4) =~= encode_utf8(head));
    if head == seq![':', ':', 'e', 'v'] {
        assert(encode_utf8(head) =~= event_marker());
    } else {
        assert(!(head =~= seq![':', ':', 'e', 'v']));
        let k = choose|k: int| 0 <= k < 4 && head[k] != seq![':', ':', 'e', 'v'][k];
        assert(head[k] as u8 == encode_utf8(head)[k]);
        is_ascii_chars_nat_bound(head);
        assert((head[k] as nat) < 128);
        if b.subrange(0, 4) == event_marker() {
            assert(encode_utf8(head)[k] == event_marker()[k]);
            assert(head[k] == seq![':', ':', 'e', 'v'][k]);
        }
    }
}

/// A request's answer goes back under the text at position 0, its command
/// is the one named by the text at position 1, and the whole message is
/// passed on; without a text at position 0 the request has no id.
pub proof fn law_request_route(m: JsonView, r: Result<Route, DispatchError>, k: Command)
    requires
        request_routed(m, r),
    ensures
        m is Array && m->Array_0.len() >= 2 && m->Array_0[0] is Str && m->Array_0[1]
            == JsonView::Str(command_name(k)) ==> (r matches Ok(
            Route::Request { mid, command, data },
        ) && mid@ == m->Array_0[0]->Str_0 && data@ == m && (command matches Ok(x) && x == k)),
        !(m is Array) || m->Array_0.len() == 0 || !(m->Array_0[0] is Str) ==> (r matches Err(
            DispatchError::MissingField(x),
        ) && x@ == "missing mid (0)"@),
{
    law_command_name_round_trip(k, command_name(k));
}

/// An event object `{"e": name, "d": data}` is routed with its data, as
/// the event of that name.
pub proof fn law_event_route(
    ev: JsonView,
    r: Result<Route, DispatchError>,
    name: Seq<char>,
    d: JsonView,
    k: EventKind,
)
    requires
        event_routed(ev, r),
        ev == JsonView::Object(seq![("e"@, JsonView::Str(name)), ("d"@, d)]),
    ensures
        r matches Ok(Route::Event { kind, data }) && data@ == d && (!(k is Unknown) && name
            == event_name(k) ==> kind == k),
{
    reveal_strlit("e");
    reveal_strlit("d");
    assert("e"@ != "d"@) by {
        assert("e"@[0] != "d"@[0]);
    }
    law_event_name_round_trip(k, name);
    let e0 = Seq::<(Seq<char>, JsonView)>::empty();
    let a = ("e"@, JsonView::Str(name));
    let b = ("d"@, d);
    assert(seq![a, b] =~= e0.push(a).push(b));
    lemma_first_where_push(e0, crate::json::named("e"@), a);
    lemma_first_where_push(e0, crate::json::named("d"@), a);
    lemma_first_where_push(e0.push(a), crate::json::named("e"@), b);
    lemma_first_where_push(e0.push(a), crate::json::named("d"@), b);
}

/// A message whose text is `::ev` followed by `rest` is an event, and the
/// text read as its JSON is `rest`.
pub proof fn law_event_text(msg: &str, rest: Seq<char>)
    requires
        msg@ == seq![':', ':', 'e', 'v'] + rest,
    ensures
        can_cut_marker(msg),
        is_event_message(msg.spec_bytes()),
        text_after_marker(msg) == rest,
{
    let head = seq![':', ':', 'e', 'v'];
    assert(is_ascii_chars(head));
    law_event_marker(head, rest);
    lemma_encode_concat(head, rest);
    is_ascii_chars_encode_utf8(head);
    let b = msg.spec_bytes();
    assert(b.subrange(4, b.len() as int) =~= encode_utf8(rest));
    encode_utf8_decode_utf8(rest);
    encode_utf8_valid_utf8(msg@);
    assert(b.subrange(0, 4) =~= encode_utf8(head));
    assert(!is_continuation_byte(b[4]) || b.len() == 4) by {
        if b.len() > 4 {
            encode_utf8_valid_utf8(rest);
            assert(b[4] == encode_utf8(rest)[0]);
        }
    }
    if b.len() > 4 {
        is_char_boundary_iff_not_is_continuation_byte(b, 4);
    } else {
        is_char_boundary_start_end_of_seq(b);
    }
}

/// The decimal digit for a value below ten.
pub open spec fn digit_char(d: int) -> char {
    if d == 0 {
        '0'
    } else if d == 1 {
        '1'
    } else if d == 2 {
        '2'
    } else if d == 3 {
        '3'
    } else if d == 4 {
        '4'
    } else if d == 5 {
        '5'
    } else if d == 6 {
        '6'
    } else if d == 7 {
        '7'
    } else if d == 8 {
        '8'
    } else {
        '9'
    }
}

/// The decimal digits of a natural number, most significant first.
pub open spec fn decimal(n: nat) -> Seq<char>
    decreases n,
{
    if n < 10 {
        seq![digit_char(n as int)]
    } else {
        decimal((n / 10) as nat).push(digit_char((n % 10) as int))
    }
}

/// The decimal text of an integer, with a minus sign when it is negative.
pub open spec fn int_text(n: int) -> Seq<char> {
    if n < 0 {
        seq!['-'] + decimal((-n) as nat)
    } else {
        decimal(n as nat)
    }
}

proof fn lemma_decimal(n: nat)
    ensures
        decimal(n).len() > 0,
        all_digits(decimal(n)),
        digits_value(decimal(n)) == n,
    decreases n,
{
    if n < 10 {
        assert(seq![digit_char(n as int)].drop_last() =~= Seq::<char>::empty());
        assert(digits_value(Seq::<char>::empty()) == 0);
        assert(digit_char(n as int) as int - '0' as int == n);
    } else {
        lemma_decimal((n / 10) as nat);
        let s = decimal((n / 10) as nat);
        assert(s.push(digit_char((n % 10) as int)).drop_last() =~= s);
        vstd::arithmetic::div_mod::lemma_fundamental_div_mod(n as int, 10);
        assert forall|i: int| 0 <= i < s.len() + 1 implies is_digit(
            #[trigger] s.push(digit_char((n % 10) as int))[i],
        ) by {
            if i < s.len() {
                assert(s.push(digit_char((n % 10) as int))[i] == s[i]);
            }
        }
    }
}

/// The decimal text of every integer reads back as that integer.
pub proof fn law_int_text_round_trip(n: int)
    ensures
        int_of_text(int_text(n)) == Some(n),
{
    if n < 0 {
        let m = (-n) as nat;
        lemma_decimal(m);
        let s = seq!['-'] + decimal(m);
        assert(s[0] == '-');
        assert(s.drop_first() =~= decimal(m));
    } else {
        lemma_decimal(n as nat);
        assert(is_digit(decimal(n as nat)[0]));
    }
}

} // verus!
