//! Fund records, sparse updates to them, and the filters that a listing takes.

use crate::json::{string_literal, string_literal_of};
use crate::text::{i64_text, int_text};
use vstd::prelude::*;
use vstd::string::*;

verus! {

/// A sparse update: a field that is present overwrites the fund's field, an
/// absent one leaves it as it is.
#[derive(Debug, PartialEq, Eq)]
pub struct PartialFund {
    pub name: Option<String>,
    pub fund_manager: Option<i64>,
    pub start_year: Option<u16>,
}

/// What a [`PartialFund`] holds.
pub struct PartialFundView {
    pub name: Option<Seq<char>>,
    pub fund_manager: Option<i64>,
    pub start_year: Option<u16>,
}

impl View for PartialFund {
    type V = PartialFundView;

    open spec fn view(&self) -> PartialFundView {
        PartialFundView {
            name: match self.name {
                Some(name) => Some(name@),
                None => None,
            },
            fund_manager: self.fund_manager,
            start_year: self.start_year,
        }
    }
}

impl PartialFundView {
    /// Whether the update sets no field at all.
    pub open spec fn is_empty(self) -> bool {
        self.name is None && self.fund_manager is None && self.start_year is None
    }
}

/// Which funds a listing asks for.
#[derive(Debug, PartialEq, Eq)]
pub enum FilterFundQuery {
    /// The funds with this name.
    Name(String),
    /// The funds of this manager, given as the store compares it.
    Manager(String),
    /// The funds that started in this year.
    StartYear(u16),
    /// Every fund.
    All,
}

/// What a [`FilterFundQuery`] holds.
pub enum FilterFundQueryView {
    Name(Seq<char>),
    Manager(Seq<char>),
    StartYear(u16),
    All,
}

impl View for FilterFundQuery {
    type V = FilterFundQueryView;

    open spec fn view(&self) -> FilterFundQueryView {
        match self {
            FilterFundQuery::Name(name) => FilterFundQueryView::Name(name@),
            FilterFundQuery::Manager(manager) => FilterFundQueryView::Manager(manager@),
            FilterFundQuery::StartYear(year) => FilterFundQueryView::StartYear(*year),
            FilterFundQuery::All => FilterFundQueryView::All,
        }
    }
}

/// A fund: the store assigns `id` when the fund is created and never changes it.
#[derive(Debug, PartialEq, Eq)]
pub struct Fund {
    pub id: i64,
    pub name: String,
    pub manager: i64,
    pub start_year: u16,
}

/// What a [`Fund`] holds.
pub struct FundView {
    pub id: i64,
    pub name: Seq<char>,
    pub manager: i64,
    pub start_year: u16,
}

impl View for Fund {
    type V = FundView;

    open spec fn view(&self) -> FundView {
        FundView {
            id: self.id,
            name: self.name@,
            manager: self.manager,
            start_year: self.start_year,
        }
    }
}

impl FundView {
    /// The fund after the sparse update `partial`: each field that `partial` sets
    /// takes its value, every other field and the identity stay.
    pub open spec fn updated(self, partial: PartialFundView) -> FundView {
        FundView {
            id: self.id,
            name: match partial.name {
                Some(name) => name,
                None => self.name,
            },
            manager: match partial.fund_manager {
                Some(manager) => manager,
                None => self.manager,
            },
            start_year: match partial.start_year {
                Some(year) => year,
                None => self.start_year,
            },
        }
    }

    /// The fund as a JSON object, its members in the order of the fields, given
    /// the JSON string literal of its name.
    pub open spec fn json_frame(self, name_literal: Seq<char>) -> Seq<char> {
        "{\"id\":"@ + int_text(self.id as int)
            + ",\"name\":"@ + name_literal
            + ",\"manager\":"@ + int_text(self.manager as int)
            + ",\"start_year\":"@ + int_text(self.start_year as int)
            + "}"@
    }

    /// The fund as a JSON object.
    pub open spec fn json(self) -> Seq<char> {
        self.json_frame(string_literal_of(self.name))
    }
}

impl Clone for Fund {
    fn clone(&self) -> (copy: Self)
        ensures
            copy == *self,
    {
        Fund {
            id: self.id,
            name: self.name.clone(),
            manager: self.manager,
            start_year: self.start_year,
        }
    }
}

impl Fund {
    /// A fund with the given fields.
    pub fn new(id: i64, name: String, manager: i64, start_year: u16) -> (fund: Self)
        ensures
            fund == (Fund { id, name, manager, start_year }),
    {
        Self { id, name, manager, start_year }
    }

    /// Applies the sparse update `fund` to this fund.
    pub fn update(&mut self, fund: PartialFund)
        ensures
            final(self)@ == old(self)@.updated(fund@),
    {
        if let Some(name) = fund.name {
            self.name = name;
        }
        if let Some(fund_manager) = fund.fund_manager {
            self.manager = fund_manager;
        }
        if let Some(start_year) = fund.start_year {
            self.start_year = start_year;
        }
    }

    /// Writes the fund as a JSON object around `name_literal`, the JSON string
    /// literal of its name.
    pub fn frame_json(&self, name_literal: &str) -> (text: String)
        ensures
            text@ == self@.json_frame(name_literal@),
    {
        let id = i64_text(self.id);
        let manager = i64_text(self.manager);
        let start_year = i64_text(self.start_year as i64);
        let mut text = String::from_str("{\"id\":");
        text.append(id.as_str());
        text.append(",\"name\":");
        text.append(name_literal);
        text.append(",\"manager\":");
        text.append(manager.as_str());
        text.append(",\"start_year\":");
        text.append(start_year.as_str());
        text.append("}");
        text
    }

    /// Writes the fund as a JSON object.
    pub fn to_json(&self) -> (text: String)
        ensures
            text@ == self@.json(),
    {
        let name_literal = string_literal(self.name.as_str());
        self.frame_json(name_literal.as_str())
    }
}

/// An update that sets no field returns the fund unchanged.
pub proof fn lemma_empty_update_changes_nothing(fund: FundView, partial: PartialFundView)
    requires
        partial.is_empty(),
    ensures
        fund.updated(partial) == fund,
{
}

/// An update changes exactly the fields that it sets: each of them takes the
/// value given, each of the others keeps its own, and the identity always stays.
pub proof fn lemma_update_changes_exactly_the_fields_set(fund: FundView, partial: PartialFundView)
    ensures
        fund.updated(partial).id == fund.id,
        fund.updated(partial).name == match partial.name {
            Some(name) => name,
            None => fund.name,
        },
        fund.updated(partial).manager == match partial.fund_manager {
            Some(manager) => manager,
            None => fund.manager,
        },
        fund.updated(partial).start_year == match partial.start_year {
            Some(year) => year,
            None => fund.start_year,
        },
{
}

/// Updating twice with the same fields is updating once.
pub proof fn lemma_update_is_idempotent(fund: FundView, partial: PartialFundView)
    ensures
        fund.updated(partial).updated(partial) == fund.updated(partial),
{
}

} // verus!
