//! Telling the fraud service of a sale.

use vstd::prelude::*;
use crate::fraud_check::FraudCheck;
use crate::fraud_check::FraudCheckLastStep;
use crate::frm::FraudCheckSaleData;
use crate::frm::FrmData;
use crate::frm::FrmFlow;
use crate::frm::FrmRequest;
use crate::frm::FrmResponse;
use crate::frm::FrmRouterData;
use crate::frm::SaleRouterData;
use crate::frm::ServiceCall;
use crate::operation::FraudCheckPost;
use crate::payments::PaymentData;
use crate::records::Records;

verus! {

/// A sale and its answer, as the rest of the flow reads them.
pub open spec fn sale_outcome<R: Records>(router_data: SaleRouterData<R>) -> FrmRouterData<R> {
    FrmRouterData {
        merchant_id: router_data.merchant_id,
        connector: router_data.connector,
        payment_id: router_data.payment_id,
        attempt_id: router_data.attempt_id,
        request: FrmRequest::Sale(router_data.request),
        response: FrmResponse::Sale(router_data.response),
    }
}

/// The fraud service has yet to hear of the payment.
pub open spec fn sale_due<R: Records>(fraud_check: FraudCheck<R>) -> bool {
    fraud_check.last_step is Processing
}

fn outcome_of_sale<R: Records>(router_data: SaleRouterData<R>) -> (outcome: FrmRouterData<R>)
    ensures
        outcome == sale_outcome(router_data),
{
    FrmRouterData {
        merchant_id: router_data.merchant_id,
        connector: router_data.connector,
        payment_id: router_data.payment_id,
        attempt_id: router_data.attempt_id,
        request: FrmRequest::Sale(
            FraudCheckSaleData {
                amount: router_data.request.amount,
                order_details: router_data.request.order_details,
                currency: router_data.request.currency,
                email: router_data.request.email,
            },
        ),
        response: FrmResponse::Sale(router_data.response),
    }
}

/// Waits for the answer to a sale after the authorisation.
pub struct PostSalePending;

/// Waits for the answer to a sale before the authorisation.
pub struct PreSalePending;

/// Tells the fraud service of a sale.
pub open spec fn sale_call<R: Records>(
    payment_data: PaymentData<R>,
    frm_data: FrmData<R>,
) -> ServiceCall<R> {
    ServiceCall { flow: FrmFlow::Sale, payment_data, frm_data }
}

impl FraudCheckPost {
    /// The sale to tell the fraud service of, unless it was told before.
    pub fn post_payment_frm<R: Records>(
        &self,
        payment_data: &PaymentData<R>,
        frm_data: &FrmData<R>,
    ) -> (next: Option<(PostSalePending, ServiceCall<R>)>)
        ensures
            next == if sale_due(frm_data.fraud_check) {
                Some((PostSalePending, sale_call(*payment_data, *frm_data)))
            } else {
                None
            },
    {
        if frm_data.fraud_check.last_step != FraudCheckLastStep::Processing {
            return None;
        }
        let call = ServiceCall {
            flow: FrmFlow::Sale,
            payment_data: payment_data.clone(),
            frm_data: frm_data.clone(),
        };
        Some((PostSalePending, call))
    }

    /// The sale to tell the fraud service of before the authorisation.
    pub fn pre_payment_frm<R: Records>(
        &self,
        payment_data: &PaymentData<R>,
        frm_data: &FrmData<R>,
    ) -> (next: (PreSalePending, ServiceCall<R>))
        ensures
            next == (PreSalePending, sale_call(*payment_data, *frm_data)),
    {
        let call = ServiceCall {
            flow: FrmFlow::Sale,
            payment_data: payment_data.clone(),
            frm_data: frm_data.clone(),
        };
        (PreSalePending, call)
    }
}

impl PostSalePending {
    /// The data under check and the outcome, once the fraud service has answered.
    pub open spec fn resumed<R: Records>(
        self,
        frm_data: FrmData<R>,
        answer: Result<SaleRouterData<R>, R::Error>,
    ) -> (FrmData<R>, Result<Option<FrmRouterData<R>>, R::Error>) {
        match answer {
            Ok(router_data) => (
                frm_data.with_last_step(FraudCheckLastStep::CheckoutOrSale),
                Ok(Some(sale_outcome(router_data))),
            ),
            Err(error) => (frm_data, Err(error)),
        }
    }

    /// Takes the answer of the fraud service.
    pub fn resume<R: Records>(
        self,
        frm_data: &mut FrmData<R>,
        answer: Result<SaleRouterData<R>, R::Error>,
    ) -> (outcome: Result<Option<FrmRouterData<R>>, R::Error>)
        ensures
            (*final(frm_data), outcome) == self.resumed(*old(frm_data), answer),
    {
        match answer {
            Ok(router_data) => {
                frm_data.fraud_check.last_step = FraudCheckLastStep::CheckoutOrSale;
                Ok(Some(outcome_of_sale(router_data)))
            },
            Err(error) => Err(error),
        }
    }
}

impl PreSalePending {
    /// Takes the answer of the fraud service.
    pub fn resume<R: Records>(self, answer: Result<SaleRouterData<R>, R::Error>) -> (outcome:
        Result<FrmRouterData<R>, R::Error>)
        ensures
            outcome == match answer {
                Ok(router_data) => Ok::<FrmRouterData<R>, R::Error>(sale_outcome(router_data)),
                Err(error) => Err(error),
            },
    {
        match answer {
            Ok(router_data) => Ok(outcome_of_sale(router_data)),
            Err(error) => Err(error),
        }
    }
}

} // verus!
