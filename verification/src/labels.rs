//! The texts under which the platform writes down what the check decides.

use vstd::prelude::*;
use crate::fraud_check::FraudCheckStatus;
use crate::records::MerchantStorageScheme;

verus! {

/// The text of each value that the check writes into the records of a payment.
pub struct Labels {
    pub fraud: String,
    pub manual_review: String,
    pub pending: String,
    pub legit: String,
    pub transaction_failure: String,
    pub postgres_only: String,
    pub redis_kv: String,
    /// The merchant decision against a payment.
    pub rejected: String,
    /// The error message of a payment whose cancellation was begun.
    pub cancel_initiated: String,
}

impl Labels {
    /// The text of a status.
    pub open spec fn of_status(self, status: FraudCheckStatus) -> String {
        match status {
            FraudCheckStatus::Fraud => self.fraud,
            FraudCheckStatus::ManualReview => self.manual_review,
            FraudCheckStatus::Pending => self.pending,
            FraudCheckStatus::Legit => self.legit,
            FraudCheckStatus::TransactionFailure => self.transaction_failure,
        }
    }

    /// The text of a storage scheme.
    pub open spec fn of_storage_scheme(self, scheme: MerchantStorageScheme) -> String {
        match scheme {
            MerchantStorageScheme::PostgresOnly => self.postgres_only,
            MerchantStorageScheme::RedisKv => self.redis_kv,
        }
    }

    /// The text of a status.
    pub fn status(&self, status: FraudCheckStatus) -> (text: String)
        ensures
            text == self.of_status(status),
    {
        match status {
            FraudCheckStatus::Fraud => self.fraud.clone(),
            FraudCheckStatus::ManualReview => self.manual_review.clone(),
            FraudCheckStatus::Pending => self.pending.clone(),
            FraudCheckStatus::Legit => self.legit.clone(),
            FraudCheckStatus::TransactionFailure => self.transaction_failure.clone(),
        }
    }

    /// The text of a storage scheme.
    pub fn storage_scheme(&self, scheme: MerchantStorageScheme) -> (text: String)
        ensures
            text == self.of_storage_scheme(scheme),
    {
        match scheme {
            MerchantStorageScheme::PostgresOnly => self.postgres_only.clone(),
            MerchantStorageScheme::RedisKv => self.redis_kv.clone(),
        }
    }
}

} // verus!
