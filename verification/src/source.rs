//! The two backends, the tables they serve and how each table is stored.

use vstd::prelude::*;

verus! {

/// How a table is stored.
#[derive(Clone, Copy, Debug)]
pub enum TableEngine {
    /// Rows are kept as written.
    BasicTree,
    /// Rows carry a sign column: +1 marks a live row, -1 retracts one.
    CollapsingMergeTree { sign: &'static str },
}

/// The tables a query can be built on.
#[derive(Clone, Copy, Debug, PartialEq, Eq, Structural, Hash)]
pub enum AnalyticsCollection {
    Payment,
    PaymentSessionized,
    Refund,
    RefundSessionized,
    FraudCheck,
    SdkEvents,
    SdkEventsAnalytics,
    ApiEvents,
    PaymentIntent,
    PaymentIntentSessionized,
    ConnectorEvents,
    OutgoingWebhookEvent,
    Authentications,
    Dispute,
    DisputeSessionized,
    ApiEventsAnalytics,
    ActivePaymentsAnalytics,
    RoutingEvents,
}

impl View for AnalyticsCollection {
    type V = AnalyticsCollection;

    open spec fn view(&self) -> AnalyticsCollection {
        *self
    }
}

/// Why a value could not be written as query text.
#[derive(Clone, Copy, Debug)]
pub enum ParsingError {
    /// The named kind of value has no encoding.
    EncodeError(&'static str),
    /// The value is not known to the backend.
    UnknownError,
}

/// A backend: it decides how each table is stored.
pub trait AnalyticsDataSource: Sized {
    spec fn table_engine(table: AnalyticsCollection) -> TableEngine;

    fn get_table_engine(table: AnalyticsCollection) -> (engine: TableEngine)
        ensures
            engine == Self::table_engine(table),
    ;
}

/// The transactional backend.
#[derive(Clone, Copy, Debug)]
pub struct SqlxClient;

/// The analytical backend.
#[derive(Clone, Copy, Debug)]
pub struct ClickhouseClient;

/// The tables that the analytical backend stores with a sign column.
pub open spec fn is_collapsing(table: AnalyticsCollection) -> bool {
    match table {
        AnalyticsCollection::Payment
        | AnalyticsCollection::PaymentSessionized
        | AnalyticsCollection::Refund
        | AnalyticsCollection::RefundSessionized
        | AnalyticsCollection::FraudCheck
        | AnalyticsCollection::PaymentIntent
        | AnalyticsCollection::PaymentIntentSessionized
        | AnalyticsCollection::Authentications
        | AnalyticsCollection::Dispute
        | AnalyticsCollection::DisputeSessionized => true,
        AnalyticsCollection::SdkEvents
        | AnalyticsCollection::SdkEventsAnalytics
        | AnalyticsCollection::ApiEvents
        | AnalyticsCollection::ConnectorEvents
        | AnalyticsCollection::OutgoingWebhookEvent
        | AnalyticsCollection::ApiEventsAnalytics
        | AnalyticsCollection::ActivePaymentsAnalytics
        | AnalyticsCollection::RoutingEvents => false,
    }
}

impl AnalyticsDataSource for SqlxClient {
    open spec fn table_engine(table: AnalyticsCollection) -> TableEngine {
        TableEngine::BasicTree
    }

    fn get_table_engine(table: AnalyticsCollection) -> (engine: TableEngine) {
        TableEngine::BasicTree
    }
}

impl AnalyticsDataSource for ClickhouseClient {
    open spec fn table_engine(table: AnalyticsCollection) -> TableEngine {
        if is_collapsing(table) {
            TableEngine::CollapsingMergeTree { sign: "sign_flag" }
        } else {
            TableEngine::BasicTree
        }
    }

    fn get_table_engine(table: AnalyticsCollection) -> (engine: TableEngine) {
        match table {
            AnalyticsCollection::Payment
            | AnalyticsCollection::PaymentSessionized
            | AnalyticsCollection::Refund
            | AnalyticsCollection::RefundSessionized
            | AnalyticsCollection::FraudCheck
            | AnalyticsCollection::PaymentIntent
            | AnalyticsCollection::PaymentIntentSessionized
            | AnalyticsCollection::Authentications
            | AnalyticsCollection::Dispute
            | AnalyticsCollection::DisputeSessionized => TableEngine::CollapsingMergeTree {
                sign: "sign_flag",
            },
            AnalyticsCollection::SdkEvents
            | AnalyticsCollection::SdkEventsAnalytics
            | AnalyticsCollection::ApiEvents
            | AnalyticsCollection::ConnectorEvents
            | AnalyticsCollection::OutgoingWebhookEvent
            | AnalyticsCollection::ApiEventsAnalytics
            | AnalyticsCollection::ActivePaymentsAnalytics
            | AnalyticsCollection::RoutingEvents => TableEngine::BasicTree,
        }
    }
}

} // verus!
