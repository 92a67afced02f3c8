//! Rendering of values as query text.

use vstd::prelude::*;
use vstd::string::StringExecFns;

use crate::source::AnalyticsCollection;
use crate::source::AnalyticsDataSource;
use crate::source::ClickhouseClient;
use crate::source::ParsingError;
use crate::source::SqlxClient;
use crate::source::TableEngine;
use crate::text::decimal;
use crate::text::u64_to_string;

verus! {

/// What a rendering produced, as text.
pub open spec fn rendered(res: Result<String, ParsingError>) -> Result<Seq<char>, ParsingError> {
    match res {
        Ok(s) => Ok(s@),
        Err(e) => Err(e),
    }
}

/// A value that can stand in a query of backend `T`.
///
/// What it renders to is a function of the value's view and of the table's
/// storage alone: rendering twice gives the same text.
pub trait ToSql<T: AnalyticsDataSource>: View {
    /// The text of `value` in a query on a table stored as `table_engine`.
    spec fn sql(value: Self::V, table_engine: TableEngine) -> Result<Seq<char>, ParsingError>;

    fn to_sql(&self, table_engine: &TableEngine) -> (res: Result<String, ParsingError>)
        ensures
            rendered(res) == Self::sql(self@, *table_engine),
    ;
}

impl<T: AnalyticsDataSource> ToSql<T> for String {
    open spec fn sql(value: Seq<char>, table_engine: TableEngine) -> Result<
        Seq<char>,
        ParsingError,
    > {
        Ok(value)
    }

    fn to_sql(&self, table_engine: &TableEngine) -> (res: Result<String, ParsingError>) {
        Ok(self.clone())
    }
}

impl<T: AnalyticsDataSource> ToSql<T> for &String {
    open spec fn sql(value: Seq<char>, table_engine: TableEngine) -> Result<
        Seq<char>,
        ParsingError,
    > {
        Ok(value)
    }

    fn to_sql(&self, table_engine: &TableEngine) -> (res: Result<String, ParsingError>) {
        Ok((*self).clone())
    }
}

impl<T: AnalyticsDataSource> ToSql<T> for &str {
    open spec fn sql(value: Seq<char>, table_engine: TableEngine) -> Result<
        Seq<char>,
        ParsingError,
    > {
        Ok(value)
    }

    fn to_sql(&self, table_engine: &TableEngine) -> (res: Result<String, ParsingError>) {
        Ok(String::from_str(self))
    }
}

/// A flag renders as `1` or `0`.
impl<T: AnalyticsDataSource> ToSql<T> for bool {
    open spec fn sql(value: bool, table_engine: TableEngine) -> Result<Seq<char>, ParsingError> {
        Ok(if value { "1"@ } else { "0"@ })
    }

    fn to_sql(&self, table_engine: &TableEngine) -> (res: Result<String, ParsingError>) {
        if *self {
            Ok(String::from_str("1"))
        } else {
            Ok(String::from_str("0"))
        }
    }
}

/// A borrowed flag renders as the word `true` or `false`.
impl<T: AnalyticsDataSource> ToSql<T> for &bool {
    open spec fn sql(value: bool, table_engine: TableEngine) -> Result<Seq<char>, ParsingError> {
        Ok(if value { "true"@ } else { "false"@ })
    }

    fn to_sql(&self, table_engine: &TableEngine) -> (res: Result<String, ParsingError>) {
        if **self {
            Ok(String::from_str("true"))
        } else {
            Ok(String::from_str("false"))
        }
    }
}

impl<T: AnalyticsDataSource> ToSql<T> for u64 {
    open spec fn sql(value: u64, table_engine: TableEngine) -> Result<Seq<char>, ParsingError> {
        Ok(decimal(value as nat))
    }

    fn to_sql(&self, table_engine: &TableEngine) -> (res: Result<String, ParsingError>) {
        Ok(u64_to_string(*self))
    }
}

impl<T: AnalyticsDataSource> ToSql<T> for &u64 {
    open spec fn sql(value: u64, table_engine: TableEngine) -> Result<Seq<char>, ParsingError> {
        Ok(decimal(value as nat))
    }

    fn to_sql(&self, table_engine: &TableEngine) -> (res: Result<String, ParsingError>) {
        Ok(u64_to_string(**self))
    }
}

/// The name of each table in the analytical backend.
pub open spec fn clickhouse_table_name(table: AnalyticsCollection) -> Seq<char> {
    match table {
        AnalyticsCollection::Payment => "payment_attempts"@,
        AnalyticsCollection::PaymentSessionized => "sessionizer_payment_attempts"@,
        AnalyticsCollection::Refund => "refunds"@,
        AnalyticsCollection::RefundSessionized => "sessionizer_refunds"@,
        AnalyticsCollection::FraudCheck => "fraud_check"@,
        AnalyticsCollection::SdkEvents => "sdk_events_audit"@,
        AnalyticsCollection::SdkEventsAnalytics => "sdk_events"@,
        AnalyticsCollection::ApiEvents => "api_events_audit"@,
        AnalyticsCollection::PaymentIntent => "payment_intents"@,
        AnalyticsCollection::PaymentIntentSessionized => "sessionizer_payment_intents"@,
        AnalyticsCollection::ConnectorEvents => "connector_events_audit"@,
        AnalyticsCollection::OutgoingWebhookEvent => "outgoing_webhook_events_audit"@,
        AnalyticsCollection::Authentications => "authentications"@,
        AnalyticsCollection::Dispute => "dispute"@,
        AnalyticsCollection::DisputeSessionized => "sessionizer_dispute"@,
        AnalyticsCollection::ApiEventsAnalytics => "api_events"@,
        AnalyticsCollection::ActivePaymentsAnalytics => "active_payments"@,
        AnalyticsCollection::RoutingEvents => "routing_events_audit"@,
    }
}

/// The name of each table that the transactional backend holds.
pub open spec fn sqlx_table_name(table: AnalyticsCollection) -> Option<Seq<char>> {
    match table {
        AnalyticsCollection::Payment => Some("payment_attempt"@),
        AnalyticsCollection::Refund => Some("refund"@),
        AnalyticsCollection::FraudCheck => Some("fraud_check"@),
        AnalyticsCollection::PaymentIntent => Some("payment_intent"@),
        AnalyticsCollection::Dispute => Some("dispute"@),
        _ => None,
    }
}

impl ToSql<ClickhouseClient> for AnalyticsCollection {
    open spec fn sql(value: AnalyticsCollection, table_engine: TableEngine) -> Result<
        Seq<char>,
        ParsingError,
    > {
        Ok(clickhouse_table_name(value))
    }

    fn to_sql(&self, table_engine: &TableEngine) -> (res: Result<String, ParsingError>) {
        let name = match self {
            AnalyticsCollection::Payment => "payment_attempts",
            AnalyticsCollection::PaymentSessionized => "sessionizer_payment_attempts",
            AnalyticsCollection::Refund => "refunds",
            AnalyticsCollection::RefundSessionized => "sessionizer_refunds",
            AnalyticsCollection::FraudCheck => "fraud_check",
            AnalyticsCollection::SdkEvents => "sdk_events_audit",
            AnalyticsCollection::SdkEventsAnalytics => "sdk_events",
            AnalyticsCollection::ApiEvents => "api_events_audit",
            AnalyticsCollection::PaymentIntent => "payment_intents",
            AnalyticsCollection::PaymentIntentSessionized => "sessionizer_payment_intents",
            AnalyticsCollection::ConnectorEvents => "connector_events_audit",
            AnalyticsCollection::OutgoingWebhookEvent => "outgoing_webhook_events_audit",
            AnalyticsCollection::Authentications => "authentications",
            AnalyticsCollection::Dispute => "dispute",
            AnalyticsCollection::DisputeSessionized => "sessionizer_dispute",
            AnalyticsCollection::ApiEventsAnalytics => "api_events",
            AnalyticsCollection::ActivePaymentsAnalytics => "active_payments",
            AnalyticsCollection::RoutingEvents => "routing_events_audit",
        };
        Ok(String::from_str(name))
    }
}

/// The transactional backend holds only some of the tables; the others have
/// no name there and fail to render.
impl ToSql<SqlxClient> for AnalyticsCollection {
    open spec fn sql(value: AnalyticsCollection, table_engine: TableEngine) -> Result<
        Seq<char>,
        ParsingError,
    > {
        match sqlx_table_name(value) {
            Some(name) => Ok(name),
            None => Err(ParsingError::UnknownError),
        }
    }

    fn to_sql(&self, table_engine: &TableEngine) -> (res: Result<String, ParsingError>) {
        match self {
            AnalyticsCollection::Payment => Ok(String::from_str("payment_attempt")),
            AnalyticsCollection::Refund => Ok(String::from_str("refund")),
            AnalyticsCollection::FraudCheck => Ok(String::from_str("fraud_check")),
            AnalyticsCollection::PaymentIntent => Ok(String::from_str("payment_intent")),
            AnalyticsCollection::Dispute => Ok(String::from_str("dispute")),
            _ => Err(ParsingError::UnknownError),
        }
    }
}

} // verus!
