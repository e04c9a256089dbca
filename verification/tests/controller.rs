use canoe::controller::{
    CreateFund, FundController, ListFundQuery, STATUS_CREATED, STATUS_INTERNAL_SERVER_ERROR, STATUS_OK,
};
use canoe::error::Error;
use canoe::events::{Event, Tasks};
use canoe::model::{FilterFundQuery, Fund, PartialFund};
use canoe::store::{Bind, FundRepository, Query, StoreReply, StoreRequest};

fn fund() -> Fund {
    Fund::new(7, "Alpha".to_string(), 3, 1999)
}

fn query(filter: Option<&str>, value: Option<&str>) -> ListFundQuery {
    ListFundQuery { filter: filter.map(str::to_string), value: value.map(str::to_string) }
}

fn drained(tasks: &mut Tasks) -> Vec<Event> {
    let mut events = Vec::new();
    while let Ok(event) = tasks.remove() {
        events.push(event);
    }
    events
}

#[test]
fn statuses_are_the_http_ones() {
    assert_eq!(STATUS_OK, 200);
    assert_eq!(STATUS_CREATED, 201);
    assert_eq!(STATUS_INTERNAL_SERVER_ERROR, 500);
}

#[test]
fn a_filter_needs_both_parameters() {
    assert_eq!(query(None, None).filter(), Some(FilterFundQuery::All));
    assert_eq!(query(Some("name"), None).filter(), Some(FilterFundQuery::All));
    assert_eq!(query(None, Some("Alpha")).filter(), Some(FilterFundQuery::All));
    assert_eq!(query(Some("start_year"), None).filter(), Some(FilterFundQuery::All));
}

#[test]
fn a_filter_is_picked_by_its_name() {
    assert_eq!(query(Some("name"), Some("Alpha")).filter(), Some(FilterFundQuery::Name("Alpha".to_string())));
    assert_eq!(query(Some("manager"), Some("3")).filter(), Some(FilterFundQuery::Manager("3".to_string())));
    assert_eq!(query(Some("manager"), Some("abc")).filter(), Some(FilterFundQuery::Manager("abc".to_string())));
    assert_eq!(query(Some("start_year"), Some("1999")).filter(), Some(FilterFundQuery::StartYear(1999)));
    assert_eq!(query(Some("start_year"), Some("+0")).filter(), Some(FilterFundQuery::StartYear(0)));
}

#[test]
fn an_unknown_filter_lists_every_fund() {
    assert_eq!(query(Some("year"), Some("1999")).filter(), Some(FilterFundQuery::All));
    assert_eq!(query(Some("Name"), Some("Alpha")).filter(), Some(FilterFundQuery::All));
    assert_eq!(query(Some(""), Some("")).filter(), Some(FilterFundQuery::All));
    assert_eq!(query(Some("id"), Some("not a year")).filter(), Some(FilterFundQuery::All));
}

#[test]
fn a_year_that_is_no_year_gives_no_filter() {
    assert_eq!(query(Some("start_year"), Some("")).filter(), None);
    assert_eq!(query(Some("start_year"), Some("nineteen")).filter(), None);
    assert_eq!(query(Some("start_year"), Some("-1")).filter(), None);
    assert_eq!(query(Some("start_year"), Some("65536")).filter(), None);
    assert_eq!(query(Some("start_year"), Some("1999 ")).filter(), None);
}

#[test]
fn list_asks_the_store_by_the_filter() {
    assert_eq!(
        FundController::list(&query(Some("name"), Some("Alpha"))),
        Some(StoreRequest { query: Query::ListFundsByName, binds: vec![Bind::Text("Alpha".to_string())] })
    );
    assert_eq!(
        FundController::list(&query(Some("manager"), Some("3"))),
        Some(StoreRequest { query: Query::ListFundsByManager, binds: vec![Bind::Text("3".to_string())] })
    );
    assert_eq!(
        FundController::list(&query(Some("start_year"), Some("1999"))),
        Some(StoreRequest { query: Query::ListFundsByStartYear, binds: vec![Bind::Int(1999)] })
    );
    assert_eq!(
        FundController::list(&query(None, None)),
        Some(StoreRequest { query: Query::ListFunds, binds: vec![] })
    );
    assert_eq!(FundController::list(&query(Some("start_year"), Some("x"))), None);
}

#[test]
fn listed_responds_with_the_funds_or_with_nothing() {
    let other = Fund::new(8, "Beta".to_string(), 3, 2001);
    assert_eq!(
        FundController::listed(StoreReply::Funds(vec![fund(), other.clone()])),
        (200, vec![fund(), other])
    );
    assert_eq!(FundController::listed(StoreReply::Funds(vec![])), (200, vec![]));
    assert_eq!(FundController::listed(StoreReply::Failed), (500, vec![]));
    assert_eq!(FundController::listed(StoreReply::Fund(Some(fund()))), (500, vec![]));
}

#[test]
fn create_asks_the_store_for_the_fund_submitted() {
    let body = CreateFund { name: "Alpha".to_string(), manager: 3, start_year: 1999 };
    assert_eq!(
        FundController::create(body),
        FundRepository::new().create("Alpha".to_string(), 3, 1999)
    );
}

#[test]
fn created_responds_and_announces_the_fund() {
    let mut tasks = Tasks::new();
    assert_eq!(
        FundController::created(StoreReply::Fund(Some(fund())), &mut tasks),
        (201, Some(fund()))
    );
    assert_eq!(
        drained(&mut tasks),
        vec![Event::new("fund_created".to_string(), "{\"id\":7}".to_string())]
    );
}

#[test]
fn a_failed_create_announces_nothing() {
    let mut tasks = Tasks::new();
    assert_eq!(FundController::created(StoreReply::Failed, &mut tasks), (500, None));
    assert_eq!(FundController::created(StoreReply::Fund(None), &mut tasks), (500, None));
    assert_eq!(FundController::created(StoreReply::Done, &mut tasks), (500, None));
    assert_eq!(drained(&mut tasks), vec![]);
}

#[test]
fn read_asks_for_the_fund_and_responds_with_it() {
    assert_eq!(FundController::read(7), FundRepository::new().get(7));
    assert_eq!(FundController::found(StoreReply::Fund(Some(fund()))), (200, Some(fund())));
    assert_eq!(FundController::found(StoreReply::Fund(None)), (500, None));
    assert_eq!(FundController::found(StoreReply::Failed), (500, None));
    assert_eq!(FundController::found(StoreReply::Count(1)), (500, None));
}

#[test]
fn update_fetches_modifies_and_stores() {
    assert_eq!(FundController::update(7), FundRepository::new().get(7));
    let partial = PartialFund { name: None, fund_manager: Some(4), start_year: None };
    let (modified, request) = FundController::modified(StoreReply::Fund(Some(fund())), partial).unwrap();
    assert_eq!(modified, Fund::new(7, "Alpha".to_string(), 4, 1999));
    assert_eq!(request, FundRepository::new().store(&modified));
    assert_eq!(
        FundController::updated(modified, StoreReply::Done),
        (200, Some(Fund::new(7, "Alpha".to_string(), 4, 1999)))
    );
}

#[test]
fn update_with_no_field_returns_the_fund_unchanged() {
    let partial = PartialFund { name: None, fund_manager: None, start_year: None };
    let (modified, request) = FundController::modified(StoreReply::Fund(Some(fund())), partial).unwrap();
    assert_eq!(request, FundRepository::new().store(&fund()));
    assert_eq!(FundController::updated(modified, StoreReply::Done), (200, Some(fund())));
}

#[test]
fn a_failed_update_responds_with_nothing() {
    let partial = || PartialFund { name: None, fund_manager: Some(4), start_year: None };
    assert_eq!(FundController::modified(StoreReply::Fund(None), partial()), Err((500, None)));
    assert_eq!(FundController::modified(StoreReply::Failed, partial()), Err((500, None)));
    assert_eq!(FundController::updated(fund(), StoreReply::Failed), (500, None));
    assert_eq!(FundController::updated(fund(), StoreReply::Count(1)), (500, None));
}

#[test]
fn errors_never_reach_the_response() {
    for reply in [StoreReply::Failed, StoreReply::Fund(None), StoreReply::Done] {
        let (status, body) = FundController::found(reply);
        assert_eq!(status, 500);
        assert_eq!(body, None);
    }
    assert_eq!(FundRepository::new().found(StoreReply::Fund(None)), Err(Error::NotFound));
}
