//! The request handlers, as far as they decide anything: which request a call
//! makes to the store, and which response the store's reply gives.

use crate::error::Error;
use crate::events::{Event, EventView, Tasks};
use crate::model::{FilterFundQuery, FilterFundQueryView, Fund, FundView, PartialFund};
use crate::store::{
    fund_views, FundRepository, StoreReply, StoreReplyView, StoreRequest, StoreRequestView,
};
use crate::text::{parse_u16, spec_parse_u16, str_eq};
use vstd::prelude::*;

verus! {

/// The status of a response that carries what was asked for.
pub const STATUS_OK: u16 = 200;

/// The status of the response to a fund created.
pub const STATUS_CREATED: u16 = 201;

/// The status of every response to a request that failed, whatever the reason.
pub const STATUS_INTERNAL_SERVER_ERROR: u16 = 500;

/// The `filter` that selects funds by name.
pub const FILTER_NAME: &'static str = "name";

/// The `filter` that selects funds by manager.
pub const FILTER_MANAGER: &'static str = "manager";

/// The `filter` that selects funds by the year in which they started.
pub const FILTER_START_YEAR: &'static str = "start_year";

/// The body of a request to create a fund.
#[derive(Debug, PartialEq, Eq)]
pub struct CreateFund {
    pub name: String,
    pub manager: i64,
    pub start_year: u16,
}

/// The query parameters of a request to list funds.
#[derive(Debug, PartialEq, Eq)]
pub struct ListFundQuery {
    pub filter: Option<String>,
    pub value: Option<String>,
}

/// What a [`ListFundQuery`] holds.
pub struct ListFundQueryView {
    pub filter: Option<Seq<char>>,
    pub value: Option<Seq<char>>,
}

impl View for ListFundQuery {
    type V = ListFundQueryView;

    open spec fn view(&self) -> ListFundQueryView {
        ListFundQueryView {
            filter: match self.filter {
                Some(filter) => Some(filter@),
                None => None,
            },
            value: match self.value {
                Some(value) => Some(value@),
                None => None,
            },
        }
    }
}

impl ListFundQueryView {
    /// The filter that the parameters ask for. Without both parameters, or with
    /// a `filter` that names no field, every fund is listed. `None` where the
    /// funds of a year are asked for and `value` is no year.
    pub open spec fn filter(self) -> Option<FilterFundQueryView> {
        match (self.filter, self.value) {
            (Some(filter), Some(value)) => if filter == FILTER_NAME@ {
                Some(FilterFundQueryView::Name(value))
            } else if filter == FILTER_MANAGER@ {
                Some(FilterFundQueryView::Manager(value))
            } else if filter == FILTER_START_YEAR@ {
                match spec_parse_u16(value) {
                    Some(year) => Some(FilterFundQueryView::StartYear(year)),
                    None => None,
                }
            } else {
                Some(FilterFundQueryView::All)
            },
            _ => Some(FilterFundQueryView::All),
        }
    }
}

/// A filter or none, by what it holds.
pub open spec fn filter_option_view(
    filter: Option<FilterFundQuery>,
) -> Option<FilterFundQueryView> {
    match filter {
        Some(filter) => Some(filter@),
        None => None,
    }
}

/// A request or none, by what it holds.
pub open spec fn request_option_view(request: Option<StoreRequest>) -> Option<StoreRequestView> {
    match request {
        Some(request) => Some(request@),
        None => None,
    }
}

/// A fund or none, by what it holds.
pub open spec fn fund_option_view(fund: Option<Fund>) -> Option<FundView> {
    match fund {
        Some(fund) => Some(fund@),
        None => None,
    }
}

impl ListFundQuery {
    /// The filter that the parameters ask for.
    pub fn filter(&self) -> (filter: Option<FilterFundQuery>)
        ensures
            filter_option_view(filter) == self@.filter(),
    {
        match (&self.filter, &self.value) {
            (Some(filter), Some(value)) => {
                if str_eq(filter.as_str(), FILTER_NAME) {
                    Some(FilterFundQuery::Name(value.clone()))
                } else if str_eq(filter.as_str(), FILTER_MANAGER) {
                    Some(FilterFundQuery::Manager(value.clone()))
                } else if str_eq(filter.as_str(), FILTER_START_YEAR) {
                    match parse_u16(value.as_str()) {
                        Some(year) => Some(FilterFundQuery::StartYear(year)),
                        None => None,
                    }
                } else {
                    Some(FilterFundQuery::All)
                }
            },
            _ => Some(FilterFundQuery::All),
        }
    }
}

/// The response that carries one fund: `success` with the fund, or the status of
/// a failure with nothing.
pub open spec fn fund_response(
    result: Result<FundView, Error>,
    success: u16,
) -> (u16, Option<FundView>) {
    match result {
        Ok(fund) => (success, Some(fund)),
        Err(_) => (STATUS_INTERNAL_SERVER_ERROR, None),
    }
}

/// The handlers of the four routes. Each route is a request to the store and a
/// response made of the reply; the update of a fund is two requests.
#[derive(Debug, Clone, Copy)]
pub struct FundController;

impl FundController {
    /// `GET /funds`: the listing to ask the store for. `None` where the funds of
    /// a year are asked for and the value given is no year.
    pub fn list(query: &ListFundQuery) -> (request: Option<StoreRequest>)
        ensures
            request_option_view(request) == match query@.filter() {
                Some(filter) => Some(StoreRequestView::list(filter)),
                None => None,
            },
    {
        match query.filter() {
            Some(filter) => Some(FundRepository::new().list(filter)),
            None => None,
        }
    }

    /// `GET /funds`: the response. The funds that the store returned, or the
    /// status of a failure with an empty list.
    pub fn listed(reply: StoreReply) -> (response: (u16, Vec<Fund>))
        ensures
            (response.0, fund_views(response.1@)) == match reply@.listed() {
                Ok(funds) => (STATUS_OK, funds),
                Err(_) => (STATUS_INTERNAL_SERVER_ERROR, Seq::<FundView>::empty()),
            },
    {
        match FundRepository::new().listed(reply) {
            Ok(funds) => (STATUS_OK, funds),
            Err(_) => {
                let funds: Vec<Fund> = Vec::new();
                (STATUS_INTERNAL_SERVER_ERROR, funds)
            },
        }
    }

    /// `POST /funds`: the request that creates the fund submitted.
    pub fn create(body: CreateFund) -> (request: StoreRequest)
        ensures
            request@ == StoreRequestView::create(body.name@, body.manager, body.start_year),
    {
        FundRepository::new().create(body.name, body.manager, body.start_year)
    }

    /// `POST /funds`: the response. A fund created is announced to the event
    /// loop by a `fund_created` event with its id; a failure emits nothing.
    pub fn created(reply: StoreReply, tasks: &mut Tasks) -> (response: (u16, Option<Fund>))
        ensures
            (response.0, fund_option_view(response.1)) == fund_response(
                reply@.created(),
                STATUS_CREATED,
            ),
            final(tasks)@ == match reply@.created() {
                Ok(fund) => old(tasks)@.push(EventView::fund_created(fund.id as int)),
                Err(_) => old(tasks)@,
            },
    {
        match FundRepository::new().created(reply) {
            Ok(fund) => {
                let event = Event::fund_created(fund.id);
                let _ = tasks.emit(event.name, event.payload);
                (STATUS_CREATED, Some(fund))
            },
            Err(_) => (STATUS_INTERNAL_SERVER_ERROR, None),
        }
    }

    /// `GET /funds/:id`: the request for the fund.
    pub fn read(id: i64) -> (request: StoreRequest)
        ensures
            request@ == StoreRequestView::get(id),
    {
        FundRepository::new().get(id)
    }

    /// `GET /funds/:id`: the response. A fund that is absent is a failure like
    /// any other.
    pub fn found(reply: StoreReply) -> (response: (u16, Option<Fund>))
        ensures
            (response.0, fund_option_view(response.1)) == fund_response(
                reply@.found(),
                STATUS_OK,
            ),
    {
        match FundRepository::new().found(reply) {
            Ok(fund) => (STATUS_OK, Some(fund)),
            Err(_) => (STATUS_INTERNAL_SERVER_ERROR, None),
        }
    }

    /// `PUT /funds/:id`: the request that fetches the fund to update.
    pub fn update(id: i64) -> (request: StoreRequest)
        ensures
            request@ == StoreRequestView::get(id),
    {
        FundRepository::new().get(id)
    }

    /// `PUT /funds/:id`, with the fund fetched: the fund as `partial` updates it
    /// and the request that stores it, or the response to a fund that could not
    /// be fetched.
    pub fn modified(
        fetched: StoreReply,
        partial: PartialFund,
    ) -> (next: Result<(Fund, StoreRequest), (u16, Option<Fund>)>)
        ensures
            match next {
                Ok((fund, request)) => {
                    &&& fetched@.found() is Ok
                    &&& fund@ == fetched@.found()->Ok_0.updated(partial@)
                    &&& request@ == StoreRequestView::store(fund@)
                },
                Err(response) => {
                    &&& fetched@.found() is Err
                    &&& response.0 == STATUS_INTERNAL_SERVER_ERROR
                    &&& response.1 is None
                },
            },
    {
        match FundRepository::new().update(fetched, partial) {
            Ok(next) => Ok(next),
            Err(_) => Err((STATUS_INTERNAL_SERVER_ERROR, None)),
        }
    }

    /// `PUT /funds/:id`: the response, once the store has replied to the request
    /// that stores `fund`.
    pub fn updated(fund: Fund, reply: StoreReply) -> (response: (u16, Option<Fund>))
        ensures
            (response.0, fund_option_view(response.1)) == fund_response(
                reply@.stored(fund@),
                STATUS_OK,
            ),
    {
        match FundRepository::new().stored(fund, reply) {
            Ok(fund) => (STATUS_OK, Some(fund)),
            Err(_) => (STATUS_INTERNAL_SERVER_ERROR, None),
        }
    }
}

} // verus!
