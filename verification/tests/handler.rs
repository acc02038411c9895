use botdispatch::evaluation::{Actions, Outcome};
use botdispatch::handler::{Handler, Step};
use botdispatch::requirements::{
    is_available, missing_among, with_kind, with_kinds,
};
use botdispatch::update::{Chat, ChatKind};
use std::cell::RefCell;

const IS_GROUP: u64 = 1;
const HAS_COMMAND: u64 = 2;
const PARSE_COMMAND: u64 = 3;
const REPLY_GROUP: u64 = 10;
const REPLY_OTHER: u64 = 11;
const REPLY_COMMAND: u64 = 12;

/// What the handlers of these tests read: the chat, the text, and the
/// command that was parsed from the text, if one was.
#[derive(Clone, Debug, PartialEq)]
struct Context {
    chat: Chat,
    text: String,
    command: Option<String>,
}

fn in_chat(kind: ChatKind) -> Context {
    Context { chat: Chat { id: 1, kind }, text: String::from("hello"), command: None }
}

fn with_text(text: &str) -> Context {
    Context { chat: Chat { id: 1, kind: ChatKind::Private }, text: String::from(text), command: None }
}

#[derive(Default)]
struct Bot {
    replies: Vec<String>,
    asked: RefCell<Vec<u64>>,
}

impl Actions for Bot {
    type Context = Context;
    type Error = String;

    fn test(&self, filter: u64, context: &Context) -> bool {
        self.asked.borrow_mut().push(filter);
        match filter {
            IS_GROUP => context.chat.is_group() || context.chat.is_supergroup(),
            HAS_COMMAND => context.command.is_some(),
            _ => false,
        }
    }

    fn transform(&self, map: u64, context: &Context) -> Option<Context> {
        self.asked.borrow_mut().push(map);
        if map != PARSE_COMMAND {
            return None;
        }
        let command = context.text.strip_prefix('/')?;
        Some(Context { command: Some(String::from(command)), ..context.clone() })
    }

    fn run(&mut self, endpoint: u64, context: &Context) -> Result<(), String> {
        match endpoint {
            REPLY_GROUP => {
                self.replies.push(String::from("group"));
                Ok(())
            }
            REPLY_OTHER => {
                self.replies.push(String::from("other"));
                Ok(())
            }
            REPLY_COMMAND => match &context.command {
                Some(command) => {
                    self.replies.push(format!("command {}", command));
                    Ok(())
                }
                None => Err(String::from("no command")),
            },
            other => Err(format!("no action {}", other)),
        }
    }
}

fn endpoint(key: u64) -> Handler {
    Handler::Endpoint { endpoint: key, needs: Vec::new() }
}

fn filter(key: u64, next: Handler) -> Handler {
    Handler::Filter { filter: key, needs: Vec::new(), next: Box::new(next) }
}

fn filter_map(key: u64, gives: u64, next: Handler) -> Handler {
    Handler::FilterMap { map: key, needs: Vec::new(), gives, next: Box::new(next) }
}

fn branch(children: Vec<Handler>) -> Handler {
    Handler::Branch { children }
}

fn group_or_other() -> Handler {
    branch(vec![filter(IS_GROUP, endpoint(REPLY_GROUP)), endpoint(REPLY_OTHER)])
}

#[test]
fn update_from_a_private_chat_takes_the_second_branch() {
    let mut bot = Bot::default();
    let done = group_or_other().evaluate(&mut bot, &in_chat(ChatKind::Private));
    assert!(matches!(done.outcome, Outcome::Handled));
    assert_eq!(done.ran, Some(REPLY_OTHER));
    assert_eq!(done.verdicts, vec![false]);
    assert_eq!(bot.replies, vec![String::from("other")]);
    assert_eq!(bot.asked.into_inner(), vec![IS_GROUP]);
}

#[test]
fn update_from_a_group_takes_the_first_branch() {
    let mut bot = Bot::default();
    let done = group_or_other().evaluate(&mut bot, &in_chat(ChatKind::Group));
    assert!(matches!(done.outcome, Outcome::Handled));
    assert_eq!(done.ran, Some(REPLY_GROUP));
    assert_eq!(done.verdicts, vec![true]);
    assert_eq!(bot.replies, vec![String::from("group")]);
}

#[test]
fn evaluation_is_repeatable() {
    let tree = group_or_other();
    for kind in [ChatKind::Private, ChatKind::Group, ChatKind::Supergroup, ChatKind::Channel] {
        let mut first = Bot::default();
        let mut second = Bot::default();
        let one = tree.evaluate(&mut first, &in_chat(kind));
        let two = tree.evaluate(&mut second, &in_chat(kind));
        assert_eq!(one.ran, two.ran);
        assert_eq!(one.verdicts, two.verdicts);
        assert_eq!(first.replies, second.replies);
        assert_eq!(tree.route(&one.verdicts), Step::Run(one.ran.expect("an action ran")));
    }
}

#[test]
fn transform_hands_its_context_down() {
    let tree = branch(vec![
        filter_map(PARSE_COMMAND, 100, filter(HAS_COMMAND, endpoint(REPLY_COMMAND))),
        endpoint(REPLY_OTHER),
    ]);
    let mut bot = Bot::default();
    let done = tree.evaluate(&mut bot, &with_text("/start"));
    assert!(matches!(done.outcome, Outcome::Handled));
    assert_eq!(done.ran, Some(REPLY_COMMAND));
    assert_eq!(done.verdicts, vec![true, true]);
    assert_eq!(bot.replies, vec![String::from("command start")]);
    let mut bot = Bot::default();
    let done = tree.evaluate(&mut bot, &with_text("start"));
    assert_eq!(done.ran, Some(REPLY_OTHER));
    assert_eq!(done.verdicts, vec![false]);
    assert_eq!(bot.replies, vec![String::from("other")]);
}

#[test]
fn what_one_child_learnt_does_not_reach_the_next() {
    let tree = branch(vec![
        filter_map(PARSE_COMMAND, 100, filter(IS_GROUP, endpoint(REPLY_GROUP))),
        filter(HAS_COMMAND, endpoint(REPLY_COMMAND)),
        endpoint(REPLY_OTHER),
    ]);
    let mut bot = Bot::default();
    let done = tree.evaluate(&mut bot, &with_text("/start"));
    assert_eq!(done.ran, Some(REPLY_OTHER));
    assert_eq!(done.verdicts, vec![true, false, false]);
    assert_eq!(bot.asked.into_inner(), vec![PARSE_COMMAND, IS_GROUP, HAS_COMMAND]);
}

#[test]
fn route_asks_one_question_at_a_time() {
    let tree = group_or_other();
    assert_eq!(tree.route(&vec![]), Step::Test(IS_GROUP));
    assert_eq!(tree.route(&vec![true]), Step::Run(REPLY_GROUP));
    assert_eq!(tree.route(&vec![false]), Step::Run(REPLY_OTHER));
    assert_eq!(tree.route(&vec![false, true, true]), Step::Run(REPLY_OTHER));
    assert_eq!(tree.route_at(&vec![false, true, true], 0), (Step::Run(REPLY_OTHER), 1));
    assert_eq!(tree.route_at(&vec![false, true, true], 1), (Step::Run(REPLY_GROUP), 2));
}

#[test]
fn rejected_everywhere_is_not_handled() {
    let tree = branch(vec![
        filter(20, endpoint(REPLY_GROUP)),
        filter_map(21, 100, endpoint(REPLY_OTHER)),
    ]);
    assert_eq!(tree.route(&vec![]), Step::Test(20));
    assert_eq!(tree.route(&vec![false]), Step::Transform(21));
    assert_eq!(tree.route(&vec![false, false]), Step::Decline);
    let mut bot = Bot::default();
    let done = tree.evaluate(&mut bot, &in_chat(ChatKind::Private));
    assert!(matches!(done.outcome, Outcome::NotHandled));
    assert_eq!(done.ran, None);
    assert_eq!(done.verdicts, vec![false, false]);
    assert!(bot.replies.is_empty());
    assert_eq!(bot.asked.into_inner(), vec![20, 21]);
}

#[test]
fn entry_and_empty_branch_handle_nothing() {
    let mut bot = Bot::default();
    let context = in_chat(ChatKind::Private);
    let done = Handler::Entry.evaluate(&mut bot, &context);
    assert!(matches!(done.outcome, Outcome::NotHandled));
    assert!(done.verdicts.is_empty());
    let done = branch(vec![]).evaluate(&mut bot, &context);
    assert!(matches!(done.outcome, Outcome::NotHandled));
    let tree = branch(vec![Handler::Entry, endpoint(REPLY_OTHER)]);
    assert_eq!(tree.route(&vec![]), Step::Run(REPLY_OTHER));
    assert_eq!(tree.evaluate(&mut bot, &context).ran, Some(REPLY_OTHER));
    assert!(bot.asked.into_inner().is_empty());
}

#[test]
fn transform_leads_on_where_it_yields() {
    let tree = filter_map(PARSE_COMMAND, 100, filter(IS_GROUP, endpoint(REPLY_GROUP)));
    assert_eq!(tree.route(&vec![]), Step::Transform(PARSE_COMMAND));
    assert_eq!(tree.route(&vec![true]), Step::Test(IS_GROUP));
    assert_eq!(tree.route(&vec![true, true]), Step::Run(REPLY_GROUP));
    assert_eq!(tree.route(&vec![true, false]), Step::Decline);
    assert_eq!(tree.route(&vec![false]), Step::Decline);
    let mut bot = Bot::default();
    let context = Context {
        chat: Chat { id: 1, kind: ChatKind::Supergroup },
        text: String::from("/go"),
        command: None,
    };
    let done = tree.evaluate(&mut bot, &context);
    assert_eq!(done.ran, Some(REPLY_GROUP));
    assert_eq!(done.verdicts, vec![true, true]);
}

#[test]
fn failed_action_is_reported_with_its_error() {
    let mut bot = Bot::default();
    let done = endpoint(99).evaluate(&mut bot, &in_chat(ChatKind::Private));
    match done.outcome {
        Outcome::Failed(error) => assert_eq!(error, "no action 99"),
        _ => panic!("the action fails"),
    }
    assert_eq!(done.ran, Some(99));
    let done = endpoint(REPLY_COMMAND).evaluate(&mut bot, &in_chat(ChatKind::Private));
    assert!(matches!(done.outcome, Outcome::Failed(error) if error == "no command"));
}

#[test]
fn nested_branches_are_tried_in_order() {
    let tree = branch(vec![
        filter(2, branch(vec![filter(4, endpoint(20)), filter(6, endpoint(21))])),
        filter(8, endpoint(22)),
        endpoint(23),
    ]);
    assert_eq!(tree.route(&vec![true, false, true]), Step::Run(21));
    assert_eq!(tree.route(&vec![true, false, false]), Step::Test(8));
    assert_eq!(tree.route(&vec![true, false, false, false]), Step::Run(23));
    assert_eq!(tree.route(&vec![false, true]), Step::Run(22));
    assert_eq!(tree.route(&vec![true, true]), Step::Run(20));
}

#[test]
fn kinds_are_looked_up_in_order() {
    assert!(is_available(&vec![3, 5, 7], 5));
    assert!(!is_available(&vec![3, 5, 7], 4));
    assert!(!is_available(&vec![], 0));
    assert_eq!(missing_among(&vec![7, 4, 3, 9], &vec![3, 5, 7]), Some(4));
    assert_eq!(missing_among(&vec![7, 3], &vec![3, 5, 7]), None);
    assert_eq!(with_kind(&vec![3, 5], 9), vec![3, 5, 9]);
    assert_eq!(with_kinds(&vec![3, 5], &vec![9, 3]), vec![3, 5, 9, 3]);
    assert_eq!(with_kinds(&vec![], &vec![]), Vec::<u64>::new());
}

#[test]
fn tree_names_the_first_kind_it_misses() {
    let tree = branch(vec![
        Handler::Filter {
            filter: 1,
            needs: vec![50],
            next: Box::new(Handler::Endpoint { endpoint: 10, needs: vec![50, 51] }),
        },
        Handler::Endpoint { endpoint: 11, needs: vec![52] },
    ]);
    assert_eq!(tree.unmet(&vec![50, 51, 52]), None);
    assert_eq!(tree.unmet(&vec![50, 52]), Some(51));
    assert_eq!(tree.unmet(&vec![51, 52]), Some(50));
    assert_eq!(tree.unmet(&vec![50, 51]), Some(52));
    assert_eq!(tree.unmet(&vec![]), Some(50));
}

#[test]
fn transform_gives_its_kind_to_what_follows_only() {
    let tree = branch(vec![
        Handler::FilterMap {
            map: 1,
            needs: vec![50],
            gives: 60,
            next: Box::new(Handler::Endpoint { endpoint: 10, needs: vec![60, 50] }),
        },
        Handler::Endpoint { endpoint: 11, needs: vec![50] },
    ]);
    assert_eq!(tree.unmet(&vec![50]), None);
    let leaking = branch(vec![
        Handler::FilterMap {
            map: 1,
            needs: vec![],
            gives: 60,
            next: Box::new(Handler::Entry),
        },
        Handler::Endpoint { endpoint: 11, needs: vec![60] },
    ]);
    assert_eq!(leaking.unmet(&vec![50]), Some(60));
    let too_early = Handler::FilterMap {
        map: 1,
        needs: vec![60],
        gives: 60,
        next: Box::new(Handler::Entry),
    };
    assert_eq!(too_early.unmet(&vec![]), Some(60));
}
