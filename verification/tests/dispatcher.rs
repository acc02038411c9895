use botdispatch::dependencies::DependencyMap;
use botdispatch::dispatcher::{
    report, Dispatcher, LoopAction, MissingDependency, Report, StillBusy,
};
use botdispatch::evaluation::{Actions, Outcome};
use botdispatch::handler::{Handler, Step};
use botdispatch::repl::{repl_handler, ReplKeys};
use botdispatch::shutdown_state::ShutdownState;
use botdispatch::shutdown_token::IdleShutdownError;
use botdispatch::update::{Chat, ChatKind, Message, Update, UpdateKind};
use std::sync::Arc;

const BOT: u64 = 1;
const UPDATE: u64 = 2;
const MESSAGE: u64 = 3;

fn keys() -> ReplKeys {
    ReplKeys { message_filter: 100, update_kind: UPDATE, message_kind: MESSAGE, handler: 200 }
}

fn deps() -> DependencyMap<&'static str> {
    DependencyMap::new().with(BOT, "bot")
}

fn dispatcher() -> Dispatcher<&'static str> {
    Dispatcher::build(repl_handler(keys(), vec![BOT, MESSAGE]), deps(), vec![UPDATE])
        .expect("nothing is missing")
}

/// What the handlers of these tests read: the update, and below the
/// message filter the message that it carries.
struct Context {
    update: Update,
    message: Option<Message>,
}

fn context(update: Update) -> Context {
    Context { update, message: None }
}

#[derive(Default)]
struct Echo {
    echoed: Vec<String>,
}

impl Actions for Echo {
    type Context = Context;
    type Error = String;

    fn test(&self, _filter: u64, _context: &Context) -> bool {
        false
    }

    fn transform(&self, map: u64, context: &Context) -> Option<Context> {
        if map != 100 {
            return None;
        }
        let message = context.update.message()?.clone();
        Some(Context { update: context.update.clone(), message: Some(message) })
    }

    fn run(&mut self, _endpoint: u64, context: &Context) -> Result<(), String> {
        match context.message.as_ref().and_then(|message| message.text.clone()) {
            Some(text) => {
                self.echoed.push(text);
                Ok(())
            }
            None => Err(String::from("no text")),
        }
    }
}

fn text_update(id: i32, text: Option<&str>) -> Update {
    Update {
        id,
        kind: UpdateKind::Message(Message {
            id,
            chat: Chat { id: 42, kind: ChatKind::Private },
            text: text.map(String::from),
        }),
    }
}

#[test]
fn build_fails_on_a_missing_dependency() {
    let tree = repl_handler(keys(), vec![BOT, MESSAGE, 77]);
    match Dispatcher::build(tree, deps(), vec![UPDATE]) {
        Err(missing) => assert_eq!(missing, MissingDependency { kind: 77 }),
        Ok(_) => panic!("dependency 77 is missing"),
    }
    let tree = repl_handler(keys(), vec![]);
    let empty: DependencyMap<&'static str> = DependencyMap::new();
    assert!(matches!(
        Dispatcher::build(tree, empty, vec![]),
        Err(MissingDependency { kind: UPDATE })
    ));
    let tree = repl_handler(keys(), vec![BOT]);
    let empty: DependencyMap<&'static str> = DependencyMap::new();
    assert!(matches!(
        Dispatcher::build(tree, empty, vec![UPDATE]),
        Err(MissingDependency { kind: BOT })
    ));
}

#[test]
fn built_dispatcher_is_idle() {
    let dispatcher = dispatcher();
    assert_eq!(dispatcher.state(), ShutdownState::Idle);
    assert_eq!(dispatcher.in_flight(), 0);
    assert_eq!(dispatcher.next_action(), LoopAction::Rest);
    assert_eq!(dispatcher.dependencies().get(BOT), Some(&"bot"));
    assert_eq!(dispatcher.handler().route(&vec![]), Step::Transform(100));
}

#[test]
fn idle_dispatcher_cannot_be_shut_down() {
    let mut dispatcher = dispatcher();
    for _ in 0..3 {
        assert!(matches!(dispatcher.shutdown(), Err(IdleShutdownError)));
        assert_eq!(dispatcher.state(), ShutdownState::Idle);
    }
    assert!(!dispatcher.arrived());
    assert_eq!(dispatcher.finish(), Err(StillBusy::NotDispatching));
}

#[test]
fn shutdown_drains_what_is_in_flight() {
    let mut dispatcher = dispatcher();
    dispatcher.start();
    assert_eq!(dispatcher.next_action(), LoopAction::Poll);
    assert!(dispatcher.arrived());
    assert!(dispatcher.arrived());
    assert!(dispatcher.arrived());
    assert_eq!(dispatcher.in_flight(), 3);
    assert_eq!(dispatcher.finish(), Err(StillBusy::Polling));
    let first = dispatcher.shutdown().expect("running").into_notifier();
    let second = dispatcher.shutdown().expect("shutting down").into_notifier();
    assert!(Arc::ptr_eq(&first, &second));
    assert_eq!(dispatcher.state(), ShutdownState::ShuttingDown);
    assert!(!dispatcher.arrived());
    assert_eq!(dispatcher.in_flight(), 3);
    for left in [2usize, 1, 0] {
        assert_eq!(dispatcher.next_action(), LoopAction::AwaitEvaluation);
        assert_eq!(dispatcher.finish(), Err(StillBusy::Draining));
        assert_eq!(dispatcher.state(), ShutdownState::ShuttingDown);
        let handled: Outcome<String> = Outcome::Handled;
        assert_eq!(dispatcher.evaluated(&handled), Some(Report::Nothing));
        assert_eq!(dispatcher.in_flight(), left);
    }
    assert_eq!(dispatcher.next_action(), LoopAction::Finish);
    assert_eq!(dispatcher.finish(), Ok(true));
    assert_eq!(dispatcher.state(), ShutdownState::Idle);
    assert_eq!(dispatcher.next_action(), LoopAction::Rest);
    assert!(matches!(dispatcher.shutdown(), Err(IdleShutdownError)));
}

#[test]
fn end_of_the_source_ends_the_loop_without_a_release() {
    let mut dispatcher = dispatcher();
    dispatcher.start();
    assert!(dispatcher.arrived());
    dispatcher.source_ended();
    assert!(!dispatcher.arrived());
    assert_eq!(dispatcher.next_action(), LoopAction::AwaitEvaluation);
    let unhandled: Outcome<String> = Outcome::NotHandled;
    assert_eq!(dispatcher.evaluated(&unhandled), Some(Report::Unhandled));
    assert_eq!(dispatcher.evaluated(&unhandled), None);
    assert_eq!(dispatcher.next_action(), LoopAction::Finish);
    assert_eq!(dispatcher.finish(), Ok(false));
    assert_eq!(dispatcher.state(), ShutdownState::Idle);
    dispatcher.start();
    assert_eq!(dispatcher.state(), ShutdownState::Running);
    assert_eq!(dispatcher.next_action(), LoopAction::Poll);
}

#[test]
fn outcomes_are_reported_to_the_right_hook() {
    let handled: Outcome<u8> = Outcome::Handled;
    let rejected: Outcome<u8> = Outcome::NotHandled;
    let failed: Outcome<u8> = Outcome::Failed(3);
    assert_eq!(report(&handled), Report::Nothing);
    assert_eq!(report(&rejected), Report::Unhandled);
    assert_eq!(report(&failed), Report::Error);
}

#[test]
fn repl_echoes_messages_and_goes_on_after_an_error() {
    let mut dispatcher = dispatcher();
    let mut echoed: Vec<String> = Vec::new();
    let mut told: Vec<Report> = Vec::new();
    let updates = vec![
        text_update(1, Some("hi")),
        Update { id: 2, kind: UpdateKind::Other },
        text_update(3, None),
        Update {
            id: 4,
            kind: UpdateKind::EditedMessage(Message {
                id: 1,
                chat: Chat { id: 42, kind: ChatKind::Private },
                text: Some(String::from("edited")),
            }),
        },
        text_update(5, Some("bye")),
    ];
    let mut actions = Echo::default();
    assert!(dispatcher.handle_update(&mut actions, &context(updates[0].clone())).is_none());
    dispatcher.start();
    for update in updates {
        let (_, report) = dispatcher
            .handle_update(&mut actions, &context(update))
            .expect("a running loop takes updates");
        told.push(report);
        assert_eq!(dispatcher.in_flight(), 0);
    }
    echoed.extend(actions.echoed);
    assert_eq!(echoed, vec![String::from("hi"), String::from("bye")]);
    assert_eq!(
        told,
        vec![Report::Nothing, Report::Unhandled, Report::Error, Report::Unhandled, Report::Nothing]
    );
    assert!(dispatcher.shutdown().is_ok());
    let mut late = Echo::default();
    assert!(dispatcher.handle_update(&mut late, &context(text_update(6, Some("late")))).is_none());
    assert!(late.echoed.is_empty());
    assert_eq!(dispatcher.finish(), Ok(true));
}

#[test]
fn repl_tree_is_a_message_filter_over_one_endpoint() {
    let tree = repl_handler(keys(), vec![BOT]);
    assert_eq!(tree.route(&vec![]), Step::Transform(100));
    assert_eq!(tree.route(&vec![true]), Step::Run(200));
    assert_eq!(tree.route(&vec![false]), Step::Decline);
    match tree {
        Handler::FilterMap { map, needs, gives, next } => {
            assert_eq!((map, needs, gives), (100, vec![UPDATE], MESSAGE));
            match *next {
                Handler::Branch { children } => {
                    assert_eq!(children.len(), 1);
                    assert!(matches!(&children[0], Handler::Endpoint { endpoint: 200, needs } if *needs == vec![BOT]));
                }
                _ => panic!("a branch"),
            }
        }
        _ => panic!("a transform"),
    }
}

#[test]
fn update_knows_its_message_and_chat() {
    let update = text_update(9, Some("x"));
    assert_eq!(update.message().map(|message| message.id), Some(9));
    assert_eq!(update.chat(), Some(Chat { id: 42, kind: ChatKind::Private }));
    let other = Update { id: 1, kind: UpdateKind::Other };
    assert!(other.message().is_none());
    assert_eq!(other.chat(), None);
    let group = Chat { id: 1, kind: ChatKind::Group };
    assert!(group.is_group() && !group.is_supergroup() && !group.is_private());
    let supergroup = Chat { id: 1, kind: ChatKind::Supergroup };
    assert!(!supergroup.is_group() && supergroup.is_supergroup());
}

fn is_send<Moved: Send>(_: &Moved) -> bool {
    true
}

#[test]
fn dispatcher_can_move_to_another_task() {
    let mut dispatcher = dispatcher();
    assert!(is_send(&dispatcher));
    dispatcher.start();
    let wait = dispatcher.shutdown().expect("running");
    assert!(is_send(&wait));
    assert!(is_send(&wait.into_notifier()));
}
