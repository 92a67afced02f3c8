//! Identifiers of tenants and of what belongs to them. Each holds the text
//! that stands for it in a query; the text is taken as given.

use vstd::prelude::*;
use vstd::string::StringExecFns;

use crate::source::AnalyticsDataSource;
use crate::source::ParsingError;
use crate::source::TableEngine;
use crate::to_sql::ToSql;

verus! {

/// An organization.
#[derive(Clone, Debug)]
pub struct OrganizationId(String);

impl View for OrganizationId {
    type V = Seq<char>;

    closed spec fn view(&self) -> Seq<char> {
        self.0@
    }
}

impl OrganizationId {
    pub fn new(id: String) -> (made: Self)
        ensures
            made@ == id@,
    {
        OrganizationId(id)
    }

    pub fn get_string_repr(&self) -> (repr: &str)
        ensures
            repr@ == self@,
    {
        self.0.as_str()
    }
}

impl<T: AnalyticsDataSource> ToSql<T> for &OrganizationId {
    open spec fn sql(value: Seq<char>, table_engine: TableEngine) -> Result<
        Seq<char>,
        ParsingError,
    > {
        Ok(value)
    }

    fn to_sql(&self, table_engine: &TableEngine) -> (res: Result<String, ParsingError>) {
        Ok(String::from_str(self.get_string_repr()))
    }
}

/// A merchant of an organization.
#[derive(Clone, Debug)]
pub struct MerchantId(String);

impl View for MerchantId {
    type V = Seq<char>;

    closed spec fn view(&self) -> Seq<char> {
        self.0@
    }
}

impl MerchantId {
    pub fn new(id: String) -> (made: Self)
        ensures
            made@ == id@,
    {
        MerchantId(id)
    }

    pub fn get_string_repr(&self) -> (repr: &str)
        ensures
            repr@ == self@,
    {
        self.0.as_str()
    }
}

impl<T: AnalyticsDataSource> ToSql<T> for &MerchantId {
    open spec fn sql(value: Seq<char>, table_engine: TableEngine) -> Result<
        Seq<char>,
        ParsingError,
    > {
        Ok(value)
    }

    fn to_sql(&self, table_engine: &TableEngine) -> (res: Result<String, ParsingError>) {
        Ok(String::from_str(self.get_string_repr()))
    }
}

impl<T: AnalyticsDataSource> ToSql<T> for MerchantId {
    open spec fn sql(value: Seq<char>, table_engine: TableEngine) -> Result<
        Seq<char>,
        ParsingError,
    > {
        Ok(value)
    }

    fn to_sql(&self, table_engine: &TableEngine) -> (res: Result<String, ParsingError>) {
        Ok(String::from_str(self.get_string_repr()))
    }
}

/// A business profile of a merchant.
#[derive(Clone, Debug)]
pub struct ProfileId(String);

impl View for ProfileId {
    type V = Seq<char>;

    closed spec fn view(&self) -> Seq<char> {
        self.0@
    }
}

impl ProfileId {
    pub fn new(id: String) -> (made: Self)
        ensures
            made@ == id@,
    {
        ProfileId(id)
    }

    pub fn get_string_repr(&self) -> (repr: &str)
        ensures
            repr@ == self@,
    {
        self.0.as_str()
    }
}

impl<T: AnalyticsDataSource> ToSql<T> for ProfileId {
    open spec fn sql(value: Seq<char>, table_engine: TableEngine) -> Result<
        Seq<char>,
        ParsingError,
    > {
        Ok(value)
    }

    fn to_sql(&self, table_engine: &TableEngine) -> (res: Result<String, ParsingError>) {
        Ok(String::from_str(self.get_string_repr()))
    }
}

/// A payment.
#[derive(Clone, Debug)]
pub struct PaymentId(String);

impl View for PaymentId {
    type V = Seq<char>;

    closed spec fn view(&self) -> Seq<char> {
        self.0@
    }
}

impl PaymentId {
    pub fn new(id: String) -> (made: Self)
        ensures
            made@ == id@,
    {
        PaymentId(id)
    }

    pub fn get_string_repr(&self) -> (repr: &str)
        ensures
            repr@ == self@,
    {
        self.0.as_str()
    }
}

impl<T: AnalyticsDataSource> ToSql<T> for &PaymentId {
    open spec fn sql(value: Seq<char>, table_engine: TableEngine) -> Result<
        Seq<char>,
        ParsingError,
    > {
        Ok(value)
    }

    fn to_sql(&self, table_engine: &TableEngine) -> (res: Result<String, ParsingError>) {
        Ok(String::from_str(self.get_string_repr()))
    }
}

/// A customer.
#[derive(Clone, Debug)]
pub struct CustomerId(String);

impl View for CustomerId {
    type V = Seq<char>;

    closed spec fn view(&self) -> Seq<char> {
        self.0@
    }
}

impl CustomerId {
    pub fn new(id: String) -> (made: Self)
        ensures
            made@ == id@,
    {
        CustomerId(id)
    }

    pub fn get_string_repr(&self) -> (repr: &str)
        ensures
            repr@ == self@,
    {
        self.0.as_str()
    }
}

impl<T: AnalyticsDataSource> ToSql<T> for CustomerId {
    open spec fn sql(value: Seq<char>, table_engine: TableEngine) -> Result<
        Seq<char>,
        ParsingError,
    > {
        Ok(value)
    }

    fn to_sql(&self, table_engine: &TableEngine) -> (res: Result<String, ParsingError>) {
        Ok(String::from_str(self.get_string_repr()))
    }
}

} // verus!
