//! The record store as the service speaks to it: the statement that each
//! operation runs with the values bound to it, and what each reply means.
//!
//! Running a statement is the caller's business. The repository says which
//! statement to run, and reads what came back.

use crate::error::Error;
use crate::model::{FilterFundQuery, FilterFundQueryView, Fund, FundView, PartialFund};
use vstd::prelude::*;
use vstd::string::*;

verus! {

/// Selects the fund with a given id.
pub const SELECT_FUND: &'static str =
    "SELECT id, name, manager, start_year FROM funds WHERE id = ?";

/// Selects every fund.
pub const SELECT_FUNDS: &'static str = "SELECT id, name, manager, start_year FROM funds";

/// Selects the funds with a given name.
pub const SELECT_FUNDS_BY_NAME: &'static str =
    "SELECT id, name, manager, start_year FROM funds WHERE name = ?";

/// Selects the funds of a given manager.
pub const SELECT_FUNDS_BY_MANAGER: &'static str =
    "SELECT id, name, manager, start_year FROM funds WHERE manager = ?";

/// Selects the funds that started in a given year.
pub const SELECT_FUNDS_BY_START_YEAR: &'static str =
    "SELECT id, name, manager, start_year FROM funds WHERE start_year = ?";

/// Inserts a fund and returns it with the id that the store assigned.
pub const INSERT_FUND: &'static str =
    "INSERT INTO funds (name, manager, start_year) VALUES (?, ?, ?) RETURNING id, name, manager, start_year";

/// Stores a fund under its id, replacing the fields of the fund that has it.
pub const UPSERT_FUND: &'static str =
    "INSERT INTO funds (id, name, manager, start_year) VALUES (?, ?, ?, ?) ON CONFLICT(id) DO UPDATE SET name = excluded.name, manager = excluded.manager, start_year = excluded.start_year";

/// Counts the other funds with a given name and manager.
pub const COUNT_NAME_COLLISIONS: &'static str =
    "SELECT count(*) as count FROM funds WHERE name = ? AND manager = ? AND id != ?";

/// Counts the aliases equal to a given name whose fund belongs to a given manager.
pub const COUNT_ALIAS_COLLISIONS: &'static str =
    "WITH company_funds AS (SELECT id FROM funds WHERE manager = ?) SELECT count(*) as count FROM aliases WHERE alias = ? AND fund_id IN (SELECT id FROM company_funds)";

/// The statements that the service runs against the store.
#[derive(Debug, Clone, Copy, PartialEq, Eq, Structural)]
pub enum Query {
    GetFund,
    ListFunds,
    ListFundsByName,
    ListFundsByManager,
    ListFundsByStartYear,
    CreateFund,
    StoreFund,
    CountNameCollisions,
    CountAliasCollisions,
}

/// What running a statement is expected to bring back.
#[derive(Debug, Clone, Copy, PartialEq, Eq, Structural)]
pub enum Fetch {
    /// One fund, or none.
    OptionalFund,
    /// Exactly one fund.
    OneFund,
    /// Any number of funds.
    AllFunds,
    /// One row holding a count.
    Count,
    /// Nothing but that the statement ran.
    Nothing,
}

impl Query {
    /// The text of the statement.
    pub open spec fn spec_sql(&self) -> Seq<char> {
        match self {
            Query::GetFund => SELECT_FUND@,
            Query::ListFunds => SELECT_FUNDS@,
            Query::ListFundsByName => SELECT_FUNDS_BY_NAME@,
            Query::ListFundsByManager => SELECT_FUNDS_BY_MANAGER@,
            Query::ListFundsByStartYear => SELECT_FUNDS_BY_START_YEAR@,
            Query::CreateFund => INSERT_FUND@,
            Query::StoreFund => UPSERT_FUND@,
            Query::CountNameCollisions => COUNT_NAME_COLLISIONS@,
            Query::CountAliasCollisions => COUNT_ALIAS_COLLISIONS@,
        }
    }

    /// The text of the statement, with a `?` for each value bound to it.
    pub fn sql(&self) -> (text: &'static str)
        ensures
            text@ == self.spec_sql(),
    {
        match self {
            Query::GetFund => SELECT_FUND,
            Query::ListFunds => SELECT_FUNDS,
            Query::ListFundsByName => SELECT_FUNDS_BY_NAME,
            Query::ListFundsByManager => SELECT_FUNDS_BY_MANAGER,
            Query::ListFundsByStartYear => SELECT_FUNDS_BY_START_YEAR,
            Query::CreateFund => INSERT_FUND,
            Query::StoreFund => UPSERT_FUND,
            Query::CountNameCollisions => COUNT_NAME_COLLISIONS,
            Query::CountAliasCollisions => COUNT_ALIAS_COLLISIONS,
        }
    }

    /// What the statement brings back.
    pub open spec fn spec_fetch(&self) -> Fetch {
        match self {
            Query::GetFund => Fetch::OptionalFund,
            Query::ListFunds | Query::ListFundsByName | Query::ListFundsByManager
            | Query::ListFundsByStartYear => Fetch::AllFunds,
            Query::CreateFund => Fetch::OneFund,
            Query::StoreFund => Fetch::Nothing,
            Query::CountNameCollisions | Query::CountAliasCollisions => Fetch::Count,
        }
    }

    /// What running the statement is expected to bring back.
    pub fn fetch(&self) -> (fetch: Fetch)
        ensures
            fetch == self.spec_fetch(),
    {
        match self {
            Query::GetFund => Fetch::OptionalFund,
            Query::ListFunds => Fetch::AllFunds,
            Query::ListFundsByName => Fetch::AllFunds,
            Query::ListFundsByManager => Fetch::AllFunds,
            Query::ListFundsByStartYear => Fetch::AllFunds,
            Query::CreateFund => Fetch::OneFund,
            Query::StoreFund => Fetch::Nothing,
            Query::CountNameCollisions => Fetch::Count,
            Query::CountAliasCollisions => Fetch::Count,
        }
    }
}

/// A value bound to a `?` of a statement.
#[derive(Debug, PartialEq, Eq)]
pub enum Bind {
    Int(i64),
    Text(String),
}

/// What a [`Bind`] holds.
pub enum BindView {
    Int(i64),
    Text(Seq<char>),
}

impl View for Bind {
    type V = BindView;

    open spec fn view(&self) -> BindView {
        match self {
            Bind::Int(value) => BindView::Int(*value),
            Bind::Text(value) => BindView::Text(value@),
        }
    }
}

/// A statement to run, with the values bound to it in the order of its `?`s.
#[derive(Debug, PartialEq, Eq)]
pub struct StoreRequest {
    pub query: Query,
    pub binds: Vec<Bind>,
}

/// What a [`StoreRequest`] holds.
pub struct StoreRequestView {
    pub query: Query,
    pub binds: Seq<BindView>,
}

impl View for StoreRequest {
    type V = StoreRequestView;

    open spec fn view(&self) -> StoreRequestView {
        StoreRequestView { query: self.query, binds: self.binds@.map_values(|bind: Bind| bind@) }
    }
}

impl StoreRequestView {
    /// Asks for the fund `id`.
    pub open spec fn get(id: i64) -> StoreRequestView {
        StoreRequestView { query: Query::GetFund, binds: seq![BindView::Int(id)] }
    }

    /// Asks for the funds that `filter` selects.
    pub open spec fn list(filter: FilterFundQueryView) -> StoreRequestView {
        match filter {
            FilterFundQueryView::Name(name) => StoreRequestView {
                query: Query::ListFundsByName,
                binds: seq![BindView::Text(name)],
            },
            FilterFundQueryView::Manager(manager) => StoreRequestView {
                query: Query::ListFundsByManager,
                binds: seq![BindView::Text(manager)],
            },
            FilterFundQueryView::StartYear(year) => StoreRequestView {
                query: Query::ListFundsByStartYear,
                binds: seq![BindView::Int(year as i64)],
            },
            FilterFundQueryView::All => StoreRequestView {
                query: Query::ListFunds,
                binds: Seq::empty(),
            },
        }
    }

    /// Asks for a new fund with these fields.
    pub open spec fn create(name: Seq<char>, manager: i64, start_year: u16) -> StoreRequestView {
        StoreRequestView {
            query: Query::CreateFund,
            binds: seq![
                BindView::Text(name),
                BindView::Int(manager),
                BindView::Int(start_year as i64),
            ],
        }
    }

    /// Asks to keep `fund` under its id.
    pub open spec fn store(fund: FundView) -> StoreRequestView {
        StoreRequestView {
            query: Query::StoreFund,
            binds: seq![
                BindView::Int(fund.id),
                BindView::Text(fund.name),
                BindView::Int(fund.manager),
                BindView::Int(fund.start_year as i64),
            ],
        }
    }

    /// Asks how many funds other than `fund` have its name and its manager.
    pub open spec fn count_name_collisions(fund: FundView) -> StoreRequestView {
        StoreRequestView {
            query: Query::CountNameCollisions,
            binds: seq![
                BindView::Text(fund.name),
                BindView::Int(fund.manager),
                BindView::Int(fund.id),
            ],
        }
    }

    /// Asks how many aliases equal the name of `fund` and belong to a fund of its
    /// manager.
    pub open spec fn count_alias_collisions(fund: FundView) -> StoreRequestView {
        StoreRequestView {
            query: Query::CountAliasCollisions,
            binds: seq![BindView::Int(fund.manager), BindView::Text(fund.name)],
        }
    }
}

impl StoreRequest {
    /// Asks how many funds other than `fund` have its name and its manager.
    pub fn count_name_collisions(fund: &Fund) -> (request: StoreRequest)
        ensures
            request@ == StoreRequestView::count_name_collisions(fund@),
    {
        let mut binds: Vec<Bind> = Vec::new();
        binds.push(Bind::Text(fund.name.clone()));
        binds.push(Bind::Int(fund.manager));
        binds.push(Bind::Int(fund.id));
        let request = StoreRequest { query: Query::CountNameCollisions, binds };
        assert(request@.binds =~= StoreRequestView::count_name_collisions(fund@).binds);
        request
    }

    /// Asks how many aliases equal the name of `fund` and belong to a fund of its
    /// manager.
    pub fn count_alias_collisions(fund: &Fund) -> (request: StoreRequest)
        ensures
            request@ == StoreRequestView::count_alias_collisions(fund@),
    {
        let mut binds: Vec<Bind> = Vec::new();
        binds.push(Bind::Int(fund.manager));
        binds.push(Bind::Text(fund.name.clone()));
        let request = StoreRequest { query: Query::CountAliasCollisions, binds };
        assert(request@.binds =~= StoreRequestView::count_alias_collisions(fund@).binds);
        request
    }
}

/// What came back from running a statement.
#[derive(Debug, PartialEq, Eq)]
pub enum StoreReply {
    /// The fund that the statement returned, or that it returned no row.
    Fund(Option<Fund>),
    /// The funds that the statement returned.
    Funds(Vec<Fund>),
    /// The count that the statement returned.
    Count(i64),
    /// The statement ran and returns nothing.
    Done,
    /// The store could not run the statement.
    Failed,
}

/// What a [`StoreReply`] holds.
pub enum StoreReplyView {
    Fund(Option<FundView>),
    Funds(Seq<FundView>),
    Count(i64),
    Done,
    Failed,
}

/// The funds of `funds`, each by what it holds.
pub open spec fn fund_views(funds: Seq<Fund>) -> Seq<FundView> {
    funds.map_values(|fund: Fund| fund@)
}

/// A fund or an error, the fund by what it holds.
pub open spec fn fund_result_view(result: Result<Fund, Error>) -> Result<FundView, Error> {
    match result {
        Ok(fund) => Ok(fund@),
        Err(error) => Err(error),
    }
}

/// Funds or an error, each fund by what it holds.
pub open spec fn funds_result_view(
    result: Result<Vec<Fund>, Error>,
) -> Result<Seq<FundView>, Error> {
    match result {
        Ok(funds) => Ok(fund_views(funds@)),
        Err(error) => Err(error),
    }
}

impl View for StoreReply {
    type V = StoreReplyView;

    open spec fn view(&self) -> StoreReplyView {
        match self {
            StoreReply::Fund(Some(fund)) => StoreReplyView::Fund(Some(fund@)),
            StoreReply::Fund(None) => StoreReplyView::Fund(None),
            StoreReply::Funds(funds) => StoreReplyView::Funds(fund_views(funds@)),
            StoreReply::Count(count) => StoreReplyView::Count(*count),
            StoreReply::Done => StoreReplyView::Done,
            StoreReply::Failed => StoreReplyView::Failed,
        }
    }
}

impl StoreReplyView {
    /// The reply to asking for one fund by its id: the fund, `NotFound` where the
    /// store has none, `StoreFailure` where the store failed. A reply of another
    /// shape answers another question: `Fatal`.
    pub open spec fn found(self) -> Result<FundView, Error> {
        match self {
            StoreReplyView::Fund(Some(fund)) => Ok(fund),
            StoreReplyView::Fund(None) => Err(Error::NotFound),
            StoreReplyView::Failed => Err(Error::StoreFailure),
            _ => Err(Error::Fatal),
        }
    }

    /// The reply to a listing: the funds, or `StoreFailure`.
    pub open spec fn listed(self) -> Result<Seq<FundView>, Error> {
        match self {
            StoreReplyView::Funds(funds) => Ok(funds),
            StoreReplyView::Failed => Err(Error::StoreFailure),
            _ => Err(Error::Fatal),
        }
    }

    /// The reply to creating a fund: the fund as the store holds it. A store that
    /// returns no row has failed.
    pub open spec fn created(self) -> Result<FundView, Error> {
        match self {
            StoreReplyView::Fund(Some(fund)) => Ok(fund),
            StoreReplyView::Fund(None) => Err(Error::StoreFailure),
            StoreReplyView::Failed => Err(Error::StoreFailure),
            _ => Err(Error::Fatal),
        }
    }

    /// The reply to storing `fund`: the fund as it was stored, or `StoreFailure`.
    pub open spec fn stored(self, fund: FundView) -> Result<FundView, Error> {
        match self {
            StoreReplyView::Done => Ok(fund),
            StoreReplyView::Failed => Err(Error::StoreFailure),
            _ => Err(Error::Fatal),
        }
    }

    /// The reply to a count: the count, or `StoreFailure`.
    pub open spec fn counted(self) -> Result<i64, Error> {
        match self {
            StoreReplyView::Count(count) => Ok(count),
            StoreReplyView::Failed => Err(Error::StoreFailure),
            _ => Err(Error::Fatal),
        }
    }
}

impl StoreReply {
    /// Reads the reply to a count.
    pub fn counted(self) -> (count: Result<i64, Error>)
        ensures
            count == self@.counted(),
    {
        match self {
            StoreReply::Count(count) => Ok(count),
            StoreReply::Failed => Err(Error::StoreFailure),
            _ => Err(Error::Fatal),
        }
    }
}

/// The fund operations of the store: get, list, create and update. Each is a
/// request to run, and a reading of the reply.
#[derive(Debug, Clone, Copy)]
pub struct FundRepository;

impl FundRepository {
    /// A repository.
    pub fn new() -> (repository: Self) {
        FundRepository
    }

    /// The request for the fund `id`.
    pub fn get(&self, id: i64) -> (request: StoreRequest)
        ensures
            request@ == StoreRequestView::get(id),
    {
        let mut binds: Vec<Bind> = Vec::new();
        binds.push(Bind::Int(id));
        let request = StoreRequest { query: Query::GetFund, binds };
        assert(request@.binds =~= StoreRequestView::get(id).binds);
        request
    }

    /// Reads the reply to [`FundRepository::get`]: the fund, or why there is none.
    pub fn found(&self, reply: StoreReply) -> (fund: Result<Fund, Error>)
        ensures
            fund_result_view(fund) == reply@.found(),
    {
        match reply {
            StoreReply::Fund(Some(fund)) => Ok(fund),
            StoreReply::Fund(None) => Err(Error::NotFound),
            StoreReply::Failed => Err(Error::StoreFailure),
            _ => Err(Error::Fatal),
        }
    }

    /// The request for the funds that `query` selects.
    pub fn list(&self, query: FilterFundQuery) -> (request: StoreRequest)
        ensures
            request@ == StoreRequestView::list(query@),
    {
        let mut binds: Vec<Bind> = Vec::new();
        let request = match query {
            FilterFundQuery::Name(name) => {
                binds.push(Bind::Text(name));
                StoreRequest { query: Query::ListFundsByName, binds }
            },
            FilterFundQuery::Manager(manager) => {
                binds.push(Bind::Text(manager));
                StoreRequest { query: Query::ListFundsByManager, binds }
            },
            FilterFundQuery::StartYear(year) => {
                binds.push(Bind::Int(year as i64));
                StoreRequest { query: Query::ListFundsByStartYear, binds }
            },
            FilterFundQuery::All => StoreRequest { query: Query::ListFunds, binds },
        };
        assert(request@.binds =~= StoreRequestView::list(query@).binds);
        request
    }

    /// Reads the reply to [`FundRepository::list`]: the funds, as the store
    /// returned them.
    pub fn listed(&self, reply: StoreReply) -> (funds: Result<Vec<Fund>, Error>)
        ensures
            funds_result_view(funds) == reply@.listed(),
    {
        match reply {
            StoreReply::Funds(funds) => Ok(funds),
            StoreReply::Failed => Err(Error::StoreFailure),
            _ => Err(Error::Fatal),
        }
    }

    /// The request for a new fund with the fields submitted; the store assigns
    /// the id.
    pub fn create(&self, name: String, manager: i64, start_year: u16) -> (request: StoreRequest)
        ensures
            request@ == StoreRequestView::create(name@, manager, start_year),
    {
        let mut binds: Vec<Bind> = Vec::new();
        binds.push(Bind::Text(name));
        binds.push(Bind::Int(manager));
        binds.push(Bind::Int(start_year as i64));
        let request = StoreRequest { query: Query::CreateFund, binds };
        assert(request@.binds =~= StoreRequestView::create(name@, manager, start_year).binds);
        request
    }

    /// Reads the reply to [`FundRepository::create`]: the fund as the store holds
    /// it.
    pub fn created(&self, reply: StoreReply) -> (fund: Result<Fund, Error>)
        ensures
            fund_result_view(fund) == reply@.created(),
    {
        match reply {
            StoreReply::Fund(Some(fund)) => Ok(fund),
            StoreReply::Fund(None) => Err(Error::StoreFailure),
            StoreReply::Failed => Err(Error::StoreFailure),
            _ => Err(Error::Fatal),
        }
    }

    /// Given the reply to [`FundRepository::get`], applies `partial` to the fund
    /// fetched: the fund as updated, and the request that stores it. Where no fund
    /// was fetched there is nothing to store.
    pub fn update(
        &self,
        fetched: StoreReply,
        partial: PartialFund,
    ) -> (updated: Result<(Fund, StoreRequest), Error>)
        ensures
            match updated {
                Ok((fund, request)) => {
                    &&& fetched@.found() is Ok
                    &&& fund@ == fetched@.found()->Ok_0.updated(partial@)
                    &&& request@ == StoreRequestView::store(fund@)
                },
                Err(error) => fetched@.found() == Err::<FundView, Error>(error),
            },
    {
        match self.found(fetched) {
            Ok(fund) => {
                let mut fund = fund;
                fund.update(partial);
                let request = self.store(&fund);
                Ok((fund, request))
            },
            Err(error) => Err(error),
        }
    }

    /// The request that keeps `fund` under its id.
    pub fn store(&self, fund: &Fund) -> (request: StoreRequest)
        ensures
            request@ == StoreRequestView::store(fund@),
    {
        let mut binds: Vec<Bind> = Vec::new();
        binds.push(Bind::Int(fund.id));
        binds.push(Bind::Text(fund.name.clone()));
        binds.push(Bind::Int(fund.manager));
        binds.push(Bind::Int(fund.start_year as i64));
        let request = StoreRequest { query: Query::StoreFund, binds };
        assert(request@.binds =~= StoreRequestView::store(fund@).binds);
        request
    }

    /// Reads the reply to [`FundRepository::store`]: `fund`, now stored.
    pub fn stored(&self, fund: Fund, reply: StoreReply) -> (kept: Result<Fund, Error>)
        ensures
            fund_result_view(kept) == reply@.stored(fund@),
    {
        match reply {
            StoreReply::Done => Ok(fund),
            StoreReply::Failed => Err(Error::StoreFailure),
            _ => Err(Error::Fatal),
        }
    }
}

} // verus!
