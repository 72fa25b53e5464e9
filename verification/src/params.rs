//! The enumerated request parameters and the names under which the exchange
//! knows their values.

use vstd::prelude::*;

verus! {

/// The width of one candle.
#[derive(Clone, Copy, Debug, PartialEq, Eq, Structural)]
pub enum Granularity {
    UnknownGranularity,
    OneMinute,
    FiveMinute,
    FifteenMinute,
    ThirtyMinute,
    OneHour,
    TwoHour,
    SixHour,
    OneDay,
}

impl Granularity {
    /// The name of the value on the wire.
    pub open spec fn name(self) -> Seq<char> {
        match self {
            Granularity::UnknownGranularity => "UNKNOWN_GRANULARITY"@,
            Granularity::OneMinute => "ONE_MINUTE"@,
            Granularity::FiveMinute => "FIVE_MINUTE"@,
            Granularity::FifteenMinute => "FIFTEEN_MINUTE"@,
            Granularity::ThirtyMinute => "THIRTY_MINUTE"@,
            Granularity::OneHour => "ONE_HOUR"@,
            Granularity::TwoHour => "TWO_HOUR"@,
            Granularity::SixHour => "SIX_HOUR"@,
            Granularity::OneDay => "ONE_DAY"@,
        }
    }

    /// The name of the value on the wire.
    pub fn as_str(&self) -> (s: &'static str)
        ensures
            s@ == self.name(),
    {
        match self {
            Granularity::UnknownGranularity => "UNKNOWN_GRANULARITY",
            Granularity::OneMinute => "ONE_MINUTE",
            Granularity::FiveMinute => "FIVE_MINUTE",
            Granularity::FifteenMinute => "FIFTEEN_MINUTE",
            Granularity::ThirtyMinute => "THIRTY_MINUTE",
            Granularity::OneHour => "ONE_HOUR",
            Granularity::TwoHour => "TWO_HOUR",
            Granularity::SixHour => "SIX_HOUR",
            Granularity::OneDay => "ONE_DAY",
        }
    }
}

/// The kind of a product.
#[derive(Clone, Copy, Debug, PartialEq, Eq, Structural)]
pub enum ProductType {
    UnknownProductType,
    Spot,
    Future,
}

impl ProductType {
    /// The name of the value on the wire.
    pub open spec fn name(self) -> Seq<char> {
        match self {
            ProductType::UnknownProductType => "UNKNOWN_PRODUCT_TYPE"@,
            ProductType::Spot => "SPOT"@,
            ProductType::Future => "FUTURE"@,
        }
    }

    /// The name of the value on the wire.
    pub fn as_str(&self) -> (s: &'static str)
        ensures
            s@ == self.name(),
    {
        match self {
            ProductType::UnknownProductType => "UNKNOWN_PRODUCT_TYPE",
            ProductType::Spot => "SPOT",
            ProductType::Future => "FUTURE",
        }
    }
}

/// How a futures contract expires.
#[derive(Clone, Copy, Debug, PartialEq, Eq, Structural)]
pub enum ContractExpiryType {
    UnknownContractExpiryType,
    Expiring,
    Perpetual,
}

impl ContractExpiryType {
    /// The name of the value on the wire.
    pub open spec fn name(self) -> Seq<char> {
        match self {
            ContractExpiryType::UnknownContractExpiryType => "UNKNOWN_CONTRACT_EXPIRY_TYPE"@,
            ContractExpiryType::Expiring => "EXPIRING"@,
            ContractExpiryType::Perpetual => "PERPETUAL"@,
        }
    }

    /// The name of the value on the wire.
    pub fn as_str(&self) -> (s: &'static str)
        ensures
            s@ == self.name(),
    {
        match self {
            ContractExpiryType::UnknownContractExpiryType => "UNKNOWN_CONTRACT_EXPIRY_TYPE",
            ContractExpiryType::Expiring => "EXPIRING",
            ContractExpiryType::Perpetual => "PERPETUAL",
        }
    }
}

/// Which expiring contracts a listing holds.
#[derive(Clone, Copy, Debug, PartialEq, Eq, Structural)]
pub enum ExpiringContractStatus {
    UnknownExpiringContractStatus,
    StatusUnexpired,
    StatusExpired,
    StatusAll,
}

impl ExpiringContractStatus {
    /// The name of the value on the wire.
    pub open spec fn name(self) -> Seq<char> {
        match self {
            ExpiringContractStatus::UnknownExpiringContractStatus => "UNKNOWN_EXPIRING_CONTRACT_STATUS"@,
            ExpiringContractStatus::StatusUnexpired => "STATUS_UNEXPIRED"@,
            ExpiringContractStatus::StatusExpired => "STATUS_EXPIRED"@,
            ExpiringContractStatus::StatusAll => "STATUS_ALL"@,
        }
    }

    /// The name of the value on the wire.
    pub fn as_str(&self) -> (s: &'static str)
        ensures
            s@ == self.name(),
    {
        match self {
            ExpiringContractStatus::UnknownExpiringContractStatus => "UNKNOWN_EXPIRING_CONTRACT_STATUS",
            ExpiringContractStatus::StatusUnexpired => "STATUS_UNEXPIRED",
            ExpiringContractStatus::StatusExpired => "STATUS_EXPIRED",
            ExpiringContractStatus::StatusAll => "STATUS_ALL",
        }
    }
}

} // verus!
