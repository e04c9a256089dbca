use canoe::controller::{CreateFund, FundController, ListFundQuery};
use canoe::error::Error;
use canoe::event_loop::{Action, EventLoop, Signal};
use canoe::events::{init, Event, Tasks};
use canoe::model::{Fund, PartialFund};
use canoe::store::{Bind, Query, StoreReply, StoreRequest};

/// A store in memory that does what the statements say.
struct Store {
    funds: Vec<Fund>,
    aliases: Vec<(i64, String)>,
    next_id: i64,
    failing: bool,
}

fn integer(bind: &Bind) -> i64 {
    match bind {
        Bind::Int(value) => *value,
        Bind::Text(text) => panic!("expected an integer, got {:?}", text),
    }
}

fn text(bind: &Bind) -> &str {
    match bind {
        Bind::Text(text) => text,
        Bind::Int(value) => panic!("expected a text, got {}", value),
    }
}

impl Store {
    fn new() -> Store {
        Store { funds: Vec::new(), aliases: Vec::new(), next_id: 1, failing: false }
    }

    fn select(&self, keep: impl Fn(&Fund) -> bool) -> Vec<Fund> {
        self.funds.iter().filter(|fund| keep(fund)).cloned().collect()
    }

    fn run(&mut self, request: &StoreRequest) -> StoreReply {
        if self.failing {
            return StoreReply::Failed;
        }
        let binds = &request.binds;
        match request.query {
            Query::GetFund => StoreReply::Fund(self.select(|fund| fund.id == integer(&binds[0])).pop()),
            Query::ListFunds => StoreReply::Funds(self.select(|_| true)),
            Query::ListFundsByName => StoreReply::Funds(self.select(|fund| fund.name == text(&binds[0]))),
            Query::ListFundsByManager => {
                StoreReply::Funds(self.select(|fund| fund.manager.to_string() == text(&binds[0])))
            }
            Query::ListFundsByStartYear => {
                StoreReply::Funds(self.select(|fund| i64::from(fund.start_year) == integer(&binds[0])))
            }
            Query::CreateFund => {
                let fund = Fund::new(
                    self.next_id,
                    text(&binds[0]).to_string(),
                    integer(&binds[1]),
                    u16::try_from(integer(&binds[2])).unwrap(),
                );
                self.next_id += 1;
                self.funds.push(fund.clone());
                StoreReply::Fund(Some(fund))
            }
            Query::StoreFund => {
                let fund = Fund::new(
                    integer(&binds[0]),
                    text(&binds[1]).to_string(),
                    integer(&binds[2]),
                    u16::try_from(integer(&binds[3])).unwrap(),
                );
                self.funds.retain(|kept| kept.id != fund.id);
                self.funds.push(fund);
                StoreReply::Done
            }
            Query::CountNameCollisions => {
                let collisions = self.select(|fund| {
                    fund.name == text(&binds[0]) && fund.manager == integer(&binds[1]) && fund.id != integer(&binds[2])
                });
                StoreReply::Count(collisions.len() as i64)
            }
            Query::CountAliasCollisions => {
                let company = self.select(|fund| fund.manager == integer(&binds[0]));
                let collisions = self
                    .aliases
                    .iter()
                    .filter(|(fund_id, alias)| alias == text(&binds[1]) && company.iter().any(|fund| fund.id == *fund_id))
                    .count();
                StoreReply::Count(collisions as i64)
            }
        }
    }
}

fn post(store: &mut Store, tasks: &mut Tasks, name: &str, manager: i64, start_year: u16) -> (u16, Option<Fund>) {
    let request = FundController::create(CreateFund { name: name.to_string(), manager, start_year });
    let reply = store.run(&request);
    FundController::created(reply, tasks)
}

fn get(store: &mut Store, id: i64) -> (u16, Option<Fund>) {
    let reply = store.run(&FundController::read(id));
    FundController::found(reply)
}

fn put(store: &mut Store, id: i64, partial: PartialFund) -> (u16, Option<Fund>) {
    let fetched = store.run(&FundController::update(id));
    match FundController::modified(fetched, partial) {
        Ok((fund, request)) => {
            let reply = store.run(&request);
            FundController::updated(fund, reply)
        }
        Err(response) => response,
    }
}

fn list(store: &mut Store, filter: Option<&str>, value: Option<&str>) -> (u16, Vec<Fund>) {
    let query = ListFundQuery { filter: filter.map(str::to_string), value: value.map(str::to_string) };
    let request = FundController::list(&query).unwrap();
    FundController::listed(store.run(&request))
}

/// One waking of the loop: from `Woke` until it sleeps again or stops.
fn wake(state: EventLoop, store: &mut Store, tasks: &mut Tasks) -> (EventLoop, Action) {
    let mut next = state.step(Signal::Woke, tasks);
    loop {
        match next {
            (state, Action::Ask(request)) => {
                let reply = store.run(&request);
                next = state.step(Signal::Reply(reply), tasks);
            }
            done => return done,
        }
    }
}

fn drained(tasks: &mut Tasks) -> Vec<Event> {
    let mut events = Vec::new();
    while let Ok(event) = tasks.remove() {
        events.push(event);
    }
    events
}

fn duplicate(fund: &Fund) -> Event {
    Event::new("fund_duplicate".to_string(), fund.to_json())
}

fn sleeping() -> (EventLoop, Action) {
    (EventLoop::Polling, Action::Sleep(100))
}

#[test]
fn a_second_fund_with_the_same_name_and_manager_is_reported() {
    let mut store = Store::new();
    let (mut tasks, state) = init();
    let (_, a) = post(&mut store, &mut tasks, "X", 1, 2000);
    assert_eq!(a, Some(Fund::new(1, "X".to_string(), 1, 2000)));
    let (state, action) = wake(state, &mut store, &mut tasks);
    assert_eq!((&state, &action), (&EventLoop::Polling, &Action::Sleep(100)));

    let (_, b) = post(&mut store, &mut tasks, "X", 1, 2001);
    let b = b.unwrap();
    assert_eq!(wake(state, &mut store, &mut tasks), sleeping());
    assert_eq!(drained(&mut tasks), vec![duplicate(&b)]);
    assert_eq!(
        duplicate(&b).payload,
        "{\"id\":2,\"name\":\"X\",\"manager\":1,\"start_year\":2001}"
    );
}

#[test]
fn two_funds_created_before_the_loop_wakes_are_both_reported() {
    let mut store = Store::new();
    let (mut tasks, state) = init();
    let a = post(&mut store, &mut tasks, "X", 1, 2000).1.unwrap();
    let b = post(&mut store, &mut tasks, "X", 1, 2000).1.unwrap();
    let (state, _) = wake(state, &mut store, &mut tasks);
    assert_eq!(wake(state, &mut store, &mut tasks), sleeping());
    assert_eq!(drained(&mut tasks), vec![duplicate(&a), duplicate(&b)]);
}

#[test]
fn a_fund_named_like_an_alias_of_its_manager_is_reported() {
    let mut store = Store::new();
    let (mut tasks, state) = init();
    let old = post(&mut store, &mut tasks, "Old name", 1, 1990).1.unwrap();
    store.aliases.push((old.id, "X".to_string()));
    let (state, _) = wake(state, &mut store, &mut tasks);
    assert_eq!(drained(&mut tasks), vec![]);

    let new = post(&mut store, &mut tasks, "X", 1, 2000).1.unwrap();
    assert_eq!(wake(state, &mut store, &mut tasks), sleeping());
    assert_eq!(drained(&mut tasks), vec![duplicate(&new)]);
}

#[test]
fn an_alias_of_another_manager_is_no_collision() {
    let mut store = Store::new();
    let (mut tasks, state) = init();
    let old = post(&mut store, &mut tasks, "Old name", 2, 1990).1.unwrap();
    store.aliases.push((old.id, "X".to_string()));
    let (state, _) = wake(state, &mut store, &mut tasks);
    post(&mut store, &mut tasks, "X", 1, 2000);
    assert_eq!(wake(state, &mut store, &mut tasks), sleeping());
    assert_eq!(drained(&mut tasks), vec![]);
}

#[test]
fn funds_with_names_of_their_own_are_never_reported() {
    let mut store = Store::new();
    let (mut tasks, mut state) = init();
    post(&mut store, &mut tasks, "X", 1, 2000);
    post(&mut store, &mut tasks, "X", 2, 2000);
    post(&mut store, &mut tasks, "Y", 1, 2000);
    post(&mut store, &mut tasks, "x", 1, 2000);
    post(&mut store, &mut tasks, "X ", 1, 2000);
    for _ in 0..5 {
        let next = wake(state, &mut store, &mut tasks);
        assert_eq!(next.1, Action::Sleep(100));
        state = next.0;
    }
    assert_eq!(drained(&mut tasks), vec![]);
    assert_eq!(wake(state, &mut store, &mut tasks), sleeping());
}

#[test]
fn a_duplicate_reported_is_taken_by_a_later_waking() {
    let mut store = Store::new();
    let (mut tasks, state) = init();
    post(&mut store, &mut tasks, "X", 1, 2000);
    post(&mut store, &mut tasks, "X", 1, 2000);
    let (state, _) = wake(state, &mut store, &mut tasks);
    let (state, _) = wake(state, &mut store, &mut tasks);
    let (state, _) = wake(state, &mut store, &mut tasks);
    assert_eq!(wake(state, &mut store, &mut tasks), sleeping());
    assert_eq!(drained(&mut tasks), vec![]);
}

#[test]
fn the_loop_stops_for_good_when_the_fund_is_gone() {
    let mut store = Store::new();
    let (mut tasks, state) = init();
    post(&mut store, &mut tasks, "X", 1, 2000);
    post(&mut store, &mut tasks, "X", 1, 2000);
    store.funds.clear();
    let (state, action) = wake(state, &mut store, &mut tasks);
    assert_eq!((&state, &action), (&EventLoop::Stopped, &Action::Stop(Error::NotFound)));
    assert_eq!(wake(state, &mut store, &mut tasks), (EventLoop::Stopped, Action::Stop(Error::Fatal)));
    assert_eq!(drained(&mut tasks), vec![Event::fund_created(2)]);
}

#[test]
fn the_loop_stops_when_the_store_fails() {
    let mut store = Store::new();
    let (mut tasks, state) = init();
    post(&mut store, &mut tasks, "X", 1, 2000);
    store.failing = true;
    assert_eq!(
        wake(state, &mut store, &mut tasks),
        (EventLoop::Stopped, Action::Stop(Error::StoreFailure))
    );
}

#[test]
fn a_fund_created_is_read_back_as_submitted() {
    let mut store = Store::new();
    let mut tasks = Tasks::new();
    let (status, created) = post(&mut store, &mut tasks, "Alpha", 3, 1999);
    assert_eq!(status, 201);
    let created = created.unwrap();
    assert_eq!((created.name.as_str(), created.manager, created.start_year), ("Alpha", 3, 1999));
    post(&mut store, &mut tasks, "Beta", 4, 2001);
    put(&mut store, 2, PartialFund { name: Some("Gamma".to_string()), fund_manager: None, start_year: None });
    assert_eq!(get(&mut store, created.id), (200, Some(created)));
}

#[test]
fn an_update_changes_the_fields_set_and_no_other_fund() {
    let mut store = Store::new();
    let mut tasks = Tasks::new();
    post(&mut store, &mut tasks, "Alpha", 3, 1999);
    post(&mut store, &mut tasks, "Beta", 4, 2001);
    let partial = PartialFund { name: None, fund_manager: Some(5), start_year: Some(2002) };
    assert_eq!(put(&mut store, 1, partial), (200, Some(Fund::new(1, "Alpha".to_string(), 5, 2002))));
    assert_eq!(get(&mut store, 1), (200, Some(Fund::new(1, "Alpha".to_string(), 5, 2002))));
    assert_eq!(get(&mut store, 2), (200, Some(Fund::new(2, "Beta".to_string(), 4, 2001))));
    let nothing = PartialFund { name: None, fund_manager: None, start_year: None };
    assert_eq!(put(&mut store, 2, nothing), (200, Some(Fund::new(2, "Beta".to_string(), 4, 2001))));
    assert_eq!(list(&mut store, None, None).1.len(), 2);
}

#[test]
fn an_update_of_a_fund_that_is_absent_fails() {
    let mut store = Store::new();
    let partial = PartialFund { name: Some("Gamma".to_string()), fund_manager: None, start_year: None };
    assert_eq!(put(&mut store, 9, partial), (500, None));
    assert_eq!(get(&mut store, 9), (500, None));
    assert_eq!(list(&mut store, None, None), (200, vec![]));
}

#[test]
fn listings_return_the_funds_that_the_filter_selects() {
    let mut store = Store::new();
    let mut tasks = Tasks::new();
    let a = post(&mut store, &mut tasks, "Alpha", 3, 1999).1.unwrap();
    let b = post(&mut store, &mut tasks, "Beta", 3, 2001).1.unwrap();
    let c = post(&mut store, &mut tasks, "Alpha", 4, 2001).1.unwrap();
    assert_eq!(list(&mut store, None, None), (200, vec![a.clone(), b.clone(), c.clone()]));
    assert_eq!(list(&mut store, Some("name"), Some("Alpha")), (200, vec![a.clone(), c.clone()]));
    assert_eq!(list(&mut store, Some("name"), Some("alpha")), (200, vec![]));
    assert_eq!(list(&mut store, Some("manager"), Some("3")), (200, vec![a.clone(), b.clone()]));
    assert_eq!(list(&mut store, Some("start_year"), Some("2001")), (200, vec![b, c]));
    assert_eq!(list(&mut store, Some("unknown"), Some("Alpha")).1.len(), 3);
    store.failing = true;
    assert_eq!(list(&mut store, None, None), (500, vec![]));
}
