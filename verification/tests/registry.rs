use std::hash::{DefaultHasher, Hash, Hasher};

use nomad::ids::{ActorId, BufferId};
use nomad::actor_map::ActorMap;
use nomad::nomad::action::{augroup_name, name_hash, ActionId, ActionName, ModuleId, ModuleName};
use nomad::nomad::autocmd::{
    attach_outcome, callback_outcome, AutocmdId, BufAdd, BufAddArgs, BufUnload, BufUnloadArgs,
    ShouldDetach,
};
use nomad::nomad::commands::{Api, ModuleApi, ModuleCommands, NomadCommand, NomadCommandError};
use nomad::nomad::cursor::{Cursor, CursorAction, CursorEvent};
use nomad::nomad::diagnostics::DiagnosticSource;
use nomad::nomad::events::{
    current_buffer_openings, hunk_is_empty, hunk_points, is_text_buftype, take_next_actor,
    CommandEvent,
    ConfigEvent, EditEvent, FunctionEvent, OpenBuffer, OpenBufferEvent,
};
use nomad::nomad::maybe::{MaybeFuture, MaybeFutureEnum, MaybeResult};
use nomad::neovim::buffer_edited::{OnBytesArgs, Point};
use nomad::strings::NameOrder;

fn std_hash(name: &str) -> u64 {
    let mut hasher = DefaultHasher::new();
    name.hash(&mut hasher);
    hasher.finish()
}

fn strings(v: &[&str]) -> Vec<String> {
    v.iter().map(|s| s.to_string()).collect()
}

fn registry() -> NomadCommand<u32> {
    let collab = ModuleName::from_str("collab");
    let mut commands = ModuleCommands::new(collab);
    commands.add_command(collab, ActionName::from_str("start"), 1);
    commands.add_command(collab, ActionName::from_str("join"), 2);
    commands.add_default_command(collab, 3);
    let auth = ModuleName::from_str("auth");
    let mut auth_commands = ModuleCommands::new(auth);
    auth_commands.add_command(auth, ActionName::from_str("login"), 4);
    let mut nomad = NomadCommand::new();
    nomad.add_module(commands);
    nomad.add_module(auth_commands);
    nomad
}

#[test]
fn action_ids_hash_names_like_str_hash() {
    assert_eq!(ActionId::from_action_name("start").hash, std_hash("start"));
    assert_eq!(ActionName::from_str("join").id(), ActionId::from_action_name("join"));
    assert_eq!(ModuleName::from_str("collab").id(), ModuleId::from_module_name("collab"));
    assert_eq!(name_hash("é"), std_hash("é"));
    assert_ne!(name_hash("a"), name_hash("b"));
}

#[test]
fn names_compare_by_their_text() {
    assert!(ActionName::from_str("a").same_as(&ActionName::from_str("a")));
    assert!(!ActionName::from_str("a").same_as(&ActionName::from_str("ab")));
    assert_eq!(ModuleName::from_str("collab").as_str(), "collab");
    assert!(ModuleName::from_str("x").same_as(&ModuleName::from_str("x")));
}

#[test]
fn augroup_names() {
    let name = augroup_name(ModuleName::from_str("collab"), ActionName::from_str("on-buf"));
    assert_eq!(name, "nomad-collab/on-buf");
}

#[test]
fn dispatch_reaches_the_named_command() {
    let nomad = registry();
    let call = match nomad.call(strings(&["collab", "join", "abc", "def"])) {
        Ok(call) => call,
        Err(_) => panic!("the command exists"),
    };
    assert_eq!(*call.command, 2);
    assert_eq!(call.args, strings(&["abc", "def"]));
}

#[test]
fn dispatch_runs_the_default_command_without_a_command_name() {
    let nomad = registry();
    match nomad.call(strings(&["collab"])) {
        Ok(call) => {
            assert_eq!(*call.command, 3);
            assert!(call.args.is_empty());
        },
        Err(_) => panic!("the module has a default command"),
    }
}

#[test]
fn dispatch_errors() {
    let nomad = registry();
    match nomad.call(Vec::new()) {
        Err(NomadCommandError::MissingModule { valid }) => assert_eq!(valid, vec!["collab", "auth"]),
        _ => panic!("expected a missing module"),
    }
    match nomad.call(strings(&["nope"])) {
        Err(NomadCommandError::UnknownModule { module_name, valid }) => {
            assert_eq!(module_name, "nope");
            assert_eq!(valid, vec!["collab", "auth"]);
        },
        _ => panic!("expected an unknown module"),
    }
    match nomad.call(strings(&["auth"])) {
        Err(NomadCommandError::MissingCommand { valid }) => assert_eq!(valid, vec!["login"]),
        _ => panic!("expected a missing command"),
    }
    match nomad.call(strings(&["collab", "leave"])) {
        Err(NomadCommandError::UnknownCommand { command_name, valid }) => {
            assert_eq!(command_name, "leave");
            assert_eq!(valid, vec!["start", "join"]);
        },
        _ => panic!("expected an unknown command"),
    }
}

#[test]
fn module_commands_lookup() {
    let m = ModuleName::from_str("m");
    let mut commands: ModuleCommands<&str> = ModuleCommands::new(m);
    assert!(commands.default_command().is_none());
    commands.add_command(m, ActionName::from_str("a"), "A");
    assert!(commands.has_command("a"));
    assert!(!commands.has_command("b"));
    assert_eq!(commands.command("a"), Some(&"A"));
    assert_eq!(commands.position("a"), Some(0));
    assert_eq!(commands.command_names(), vec!["a"]);
    assert_eq!(commands.module_name().as_str(), "m");
}

#[test]
fn module_api_and_api() {
    let m = ModuleName::from_str("collab");
    let api = ModuleApi::new(m)
        .command(ActionName::from_str("start"), 10u8)
        .function(ActionName::from_str("status"));
    assert!(api.has_function("status"));
    assert!(!api.has_function("start"));
    let mut whole = Api::new();
    assert!(!whole.has_module("collab"));
    let functions = whole.add_module(api);
    assert_eq!(functions, vec!["status"]);
    assert!(whole.has_module("collab"));
    let command = whole.into_command();
    assert!(command.has_module("collab"));
    assert_eq!(command.module_names(), vec!["collab"]);
    match command.call(strings(&["collab", "start"])) {
        Ok(call) => assert_eq!(*call.command, 10),
        Err(_) => panic!("the command exists"),
    }
}

#[test]
fn autocmd_outcomes() {
    assert_eq!(callback_outcome::<u8>(Ok(ShouldDetach::Yes)), (true, None));
    assert_eq!(callback_outcome::<u8>(Ok(ShouldDetach::No)), (false, None));
    assert_eq!(callback_outcome(Err(7u8)), (false, Some(7)));
    assert_eq!(attach_outcome::<u8>(Ok(ShouldDetach::No)), (ShouldDetach::No, None));
    assert_eq!(attach_outcome(Err(1u8)), (ShouldDetach::Yes, Some(1)));
}

#[test]
fn should_detach_conversions() {
    assert_eq!(ShouldDetach::from(true), ShouldDetach::Yes);
    assert_eq!(ShouldDetach::from(false), ShouldDetach::No);
    assert_eq!(ShouldDetach::from(()), ShouldDetach::No);
    assert_eq!(AutocmdId::from(12u32), AutocmdId { id: 12 });
}

#[test]
fn buf_add_takes_the_actor_that_added_the_buffer() {
    let mut map = ActorMap::new();
    map.added_buffer(BufferId { handle: 4 }, ActorId { id: 2 });
    map.edited_buffer(BufferId { handle: 4 }, ActorId { id: 3 });
    let args = BufAddArgs::from_ctx(&mut map, BufferId { handle: 4 });
    assert_eq!(args, BufAddArgs { actor_id: ActorId { id: 2 }, buffer_id: BufferId { handle: 4 } });
    let again = BufAddArgs::from_ctx(&mut map, BufferId { handle: 4 });
    assert_eq!(again.actor_id, ActorId::unknown());
    assert_eq!(map.take_edited_buffer(BufferId { handle: 4 }), ActorId { id: 3 });
    assert_eq!(map.take_edited_buffer(BufferId { handle: 4 }), ActorId::unknown());
}

#[test]
fn autocmd_events_and_actions() {
    let add = BufAdd("action");
    assert_eq!(add.on_events(), vec!["BufAdd"]);
    assert_eq!(add.into_action(), "action");
    let unload = BufUnload::new(5u8);
    assert_eq!(unload.on_events(), vec!["BufUnload"]);
    assert_eq!(unload.into_action(), 5);
    assert_eq!(BufUnload::<u8>::take_actor_id(), ActorId::unknown());
    let args = BufUnloadArgs::new(ActorId { id: 1 }, BufferId { handle: 9 });
    assert_eq!(args.buffer_id, BufferId { handle: 9 });
}

#[test]
fn cursor_events() {
    let point = Point { line_idx: 1, byte_offset: 2 };
    let cursor = Cursor::new(CursorAction::Moved(point), ActorId { id: 4 });
    assert_eq!(cursor.action(), CursorAction::Moved(point));
    assert_eq!(cursor.moved_by(), ActorId { id: 4 });
    let event = CursorEvent::new("act");
    assert_eq!(event.into_action(), "act");
}

#[test]
fn events_order_by_their_names() {
    let a = CommandEvent { module_name: "collab", command_name: "join" };
    let b = CommandEvent { module_name: "collab", command_name: "start" };
    let c = CommandEvent { module_name: "auth", command_name: "zzz" };
    assert_eq!(a.compare(&b), NameOrder::Less);
    assert_eq!(b.compare(&a), NameOrder::Greater);
    assert_eq!(a.compare(&c), NameOrder::Greater);
    assert!(a.same_as(&CommandEvent { module_name: "collab", command_name: "join" }));
    let f = FunctionEvent { module_name: "m", function_name: "f" };
    assert_eq!(f.compare(&FunctionEvent { module_name: "m", function_name: "g" }), NameOrder::Less);
    assert_eq!(ConfigEvent { module_name: "b" }.compare(&ConfigEvent { module_name: "a" }), NameOrder::Greater);
    assert_eq!(
        EditEvent { id: BufferId { handle: 1 } }.compare(&EditEvent { id: BufferId { handle: 2 } }),
        NameOrder::Less
    );
    assert_eq!(
        OpenBufferEvent { send_current: true }.compare(&OpenBufferEvent { send_current: false }),
        NameOrder::Equal
    );
}

#[test]
fn buffer_openings_take_the_announced_actor_once() {
    let buffers = vec![BufferId { handle: 1 }, BufferId { handle: 2 }, BufferId { handle: 3 }];
    let is_text = vec![false, true, true];
    let mut next = Some(ActorId { id: 6 });
    let opened = current_buffer_openings(&buffers, &is_text, &mut next);
    assert_eq!(
        opened,
        vec![
            OpenBuffer::new(BufferId { handle: 2 }, ActorId { id: 6 }),
            OpenBuffer::new(BufferId { handle: 3 }, ActorId::unknown()),
        ]
    );
    assert_eq!(opened[0].id(), BufferId { handle: 2 });
    assert_eq!(opened[0].opened_by(), ActorId { id: 6 });
    assert!(next.is_none());
    let mut none = None;
    assert_eq!(take_next_actor(&mut none), ActorId::unknown());
}

#[test]
fn hunks_of_on_bytes_edits() {
    let args = OnBytesArgs {
        changedtick: 1,
        start_row: 1,
        start_col: 2,
        start_offset: 12,
        old_end_row: 0,
        old_end_col: 0,
        old_end_len: 0,
        new_end_row: 0,
        new_end_col: 3,
        new_end_len: 3,
    };
    let (start, end) = hunk_points(&args);
    assert_eq!(start, Point { line_idx: 1, byte_offset: 12 });
    assert_eq!(end, Point { line_idx: 1, byte_offset: 5 });
    assert!(!hunk_is_empty(start, end));
    assert!(hunk_is_empty(start, start));
}

#[test]
fn diagnostic_sources() {
    let source = DiagnosticSource::of_action(ModuleName::from_str("collab"), ActionName::from_str("join"));
    assert_eq!(source.into_segments(), vec!["collab", "join"]);
    let mut empty = DiagnosticSource::new();
    empty.push_segment("x");
    assert_eq!(empty.into_segments(), vec!["x"]);
}

#[test]
fn maybe_results_and_futures() {
    let r: Result<u8, std::convert::Infallible> = MaybeResult::<u8>::into_result(5u8);
    assert_eq!(r, Ok(5));
    let e: Result<u8, &str> = MaybeResult::<u8>::into_result(Err::<u8, &str>("bad"));
    assert_eq!(e, Err("bad"));
    let ready: MaybeFutureEnum<std::future::Ready<u8>, u8> = MaybeFutureEnum::Ready(3);
    assert_eq!(ready.into_ready(), 3);
    let fut = MaybeFutureEnum::from_future(std::future::ready(4u8));
    assert!(matches!(fut, MaybeFutureEnum::Future(_)));
}

#[test]
fn plain_values_are_ready_futures() {
    assert!(matches!(().into_enum(), MaybeFutureEnum::Ready(())));
    assert!(matches!(Some(7u8).into_enum(), MaybeFutureEnum::Ready(Some(7))));
    let res: Result<u8, &str> = Err("no");
    assert!(matches!(res.into_enum(), MaybeFutureEnum::Ready(Err("no"))));
    let fut = MaybeFutureEnum::from_future(std::future::ready(4u8));
    assert!(matches!(fut.into_enum(), MaybeFutureEnum::Future(_)));
}

#[test]
fn names_compare_and_print_as_tuple_structs() {
    assert_eq!(format!("{:?}", ActionName::from_str("start")), "ActionName(\"start\")");
    assert_eq!(format!("{:?}", ModuleName::from_str("collab")), "ModuleName(\"collab\")");
    assert_eq!(ActionName::from_str("start"), ActionName::from_str("start"));
    assert_ne!(ModuleName::from_str("a"), ModuleName::from_str("b"));
}

#[test]
fn only_normal_buffers_hold_text() {
    assert!(is_text_buftype(""));
    assert!(!is_text_buftype("help"));
    assert!(!is_text_buftype("terminal"));
}
